//! The diagnostic text written over UART when the firmware panics.
//!
//! The report is a banner, then, where the panic carries them, a
//! `Location: <file>` line and a `Message: <text>` line. It is handed out
//! piece by piece, each piece either a constant or one of the caller's own
//! slices, so that the panic path writes it without allocating.
use vstd::prelude::*;

verus! {

/// `"\n!!! PANIC !!!\n"`, the first line of every report.
pub open spec fn banner() -> Seq<u8> {
    seq![
        0x0Au8, 0x21u8, 0x21u8, 0x21u8, 0x20u8, 0x50u8, 0x41u8, 0x4Eu8, 0x49u8, 0x43u8, 0x20u8,
        0x21u8, 0x21u8, 0x21u8, 0x0Au8,
    ]
}

/// `"Location: "`, the label before the source file of the panic.
pub open spec fn location_label() -> Seq<u8> {
    seq![0x4Cu8, 0x6Fu8, 0x63u8, 0x61u8, 0x74u8, 0x69u8, 0x6Fu8, 0x6Eu8, 0x3Au8, 0x20u8]
}

/// `"Message: "`, the label before the panic message.
pub open spec fn message_label() -> Seq<u8> {
    seq![0x4Du8, 0x65u8, 0x73u8, 0x73u8, 0x61u8, 0x67u8, 0x65u8, 0x3Au8, 0x20u8]
}

/// `"\n"`, the end of each line of the report.
pub open spec fn line_end() -> Seq<u8> {
    seq![0x0Au8]
}

/// One labelled line of the report, present only where the value is.
pub open spec fn labelled_line(label: Seq<u8>, value: Option<Seq<u8>>) -> Seq<u8> {
    match value {
        Some(v) => label + v + line_end(),
        None => Seq::empty(),
    }
}

/// The whole report for a panic with the given source file and message.
pub open spec fn report_of(location: Option<Seq<u8>>, message: Option<Seq<u8>>) -> Seq<u8> {
    banner() + labelled_line(location_label(), location) + labelled_line(message_label(), message)
}

/// The pieces of one labelled line: label, value, line end.
pub open spec fn line_pieces(label: Seq<u8>, value: Option<Seq<u8>>) -> Seq<Seq<u8>> {
    match value {
        Some(v) => seq![label, v, line_end()],
        None => Seq::empty(),
    }
}

/// The pieces in which the report is written, in order.
pub open spec fn report_pieces(location: Option<Seq<u8>>, message: Option<Seq<u8>>) -> Seq<
    Seq<u8>,
> {
    seq![banner()] + line_pieces(location_label(), location) + line_pieces(
        message_label(),
        message,
    )
}

/// The view of an optional byte slice.
pub open spec fn opt_view(o: Option<&[u8]>) -> Option<Seq<u8>> {
    match o {
        Some(s) => Some(s@),
        None => None,
    }
}

fn banner_bytes() -> (r: &'static [u8])
    ensures
        r@ == banner(),
{
    let a: &'static [u8; 15] = &[
        0x0Au8, 0x21u8, 0x21u8, 0x21u8, 0x20u8, 0x50u8, 0x41u8, 0x4Eu8, 0x49u8, 0x43u8, 0x20u8,
        0x21u8, 0x21u8, 0x21u8, 0x0Au8,
    ];
    a.as_slice()
}

fn location_label_bytes() -> (r: &'static [u8])
    ensures
        r@ == location_label(),
{
    let a: &'static [u8; 10] = &[
        0x4Cu8, 0x6Fu8, 0x63u8, 0x61u8, 0x74u8, 0x69u8, 0x6Fu8, 0x6Eu8, 0x3Au8, 0x20u8,
    ];
    a.as_slice()
}

fn message_label_bytes() -> (r: &'static [u8])
    ensures
        r@ == message_label(),
{
    let a: &'static [u8; 9] = &[0x4Du8, 0x65u8, 0x73u8, 0x73u8, 0x61u8, 0x67u8, 0x65u8, 0x3Au8, 0x20u8];
    a.as_slice()
}

fn line_end_bytes() -> (r: &'static [u8])
    ensures
        r@ == line_end(),
{
    let a: &'static [u8; 1] = &[0x0Au8];
    a.as_slice()
}

/// Piece `index` of one labelled line, or `None` past its end.
fn line_piece<'a>(label: &'a [u8], value: Option<&'a [u8]>, index: usize) -> (piece: Option<
    &'a [u8],
>)
    ensures
        index < line_pieces(label@, opt_view(value)).len() ==> (piece matches Some(p) && p@
            == line_pieces(label@, opt_view(value))[index as int]),
        index >= line_pieces(label@, opt_view(value)).len() ==> piece is None,
{
    match value {
        Some(v) => {
            if index == 0 {
                Some(label)
            } else if index == 1 {
                Some(v)
            } else if index == 2 {
                Some(line_end_bytes())
            } else {
                None
            }
        },
        None => None,
    }
}

/// Piece `index` of the report for a panic whose source file and message
/// are `location` and `message` (each where the panic carries one), or
/// `None` once every piece has been handed out.
pub fn panic_report_piece<'a>(
    location: Option<&'a [u8]>,
    message: Option<&'a [u8]>,
    index: usize,
) -> (piece: Option<&'a [u8]>)
    ensures
        index < report_pieces(opt_view(location), opt_view(message)).len() ==> (piece matches Some(
            p,
        ) && p@ == report_pieces(opt_view(location), opt_view(message))[index as int]),
        index >= report_pieces(opt_view(location), opt_view(message)).len() ==> piece is None,
        location matches Some(l) ==> (index == 2 ==> (piece matches Some(p) && p@ == l@)),
        message matches Some(m) ==> (index == (if location is Some {
            5usize
        } else {
            2usize
        }) ==> (piece matches Some(p) && p@ == m@)),
        index == 0 ==> (piece matches Some(p) && p@.len() == 15),
{
    if index == 0 {
        return Some(banner_bytes());
    }
    let loc_len: usize = match location {
        Some(_) => 3,
        None => 0,
    };
    assert(loc_len == line_pieces(location_label(), opt_view(location)).len());
    if index - 1 < loc_len {
        line_piece(location_label_bytes(), location, index - 1)
    } else {
        line_piece(message_label_bytes(), message, index - 1 - loc_len)
    }
}

/// Written one after the other, the pieces of the report make up exactly
/// the report.
pub proof fn lemma_report_pieces_make_report(location: Option<Seq<u8>>, message: Option<Seq<u8>>)
    ensures
        report_pieces(location, message).flatten() == report_of(location, message),
{
    let lp = line_pieces(location_label(), location);
    let mp = line_pieces(message_label(), message);
    lemma_flatten_concat(seq![banner()] + lp, mp);
    lemma_flatten_concat(seq![banner()], lp);
    lemma_flatten_line(location_label(), location);
    lemma_flatten_line(message_label(), message);
    reveal_with_fuel(Seq::<_>::flatten, 2);
    assert(seq![banner()].flatten() == banner());
}

/// Every report starts with the banner, whatever the panic carries.
pub proof fn lemma_report_starts_with_banner(location: Option<Seq<u8>>, message: Option<Seq<u8>>)
    ensures
        report_of(location, message).len() >= banner().len(),
        report_of(location, message).take(banner().len() as int) == banner(),
{
    let r = report_of(location, message);
    let rest = labelled_line(location_label(), location) + labelled_line(message_label(), message);
    assert(r == banner() + rest);
    assert(r.take(banner().len() as int) == banner());
}

/// The layout of the report, byte by byte: the 15-byte banner; where the
/// panic carries a location `l`, the 10-byte `"Location: "`, `l` whole and
/// a line end; where it carries a message `m`, the 9-byte `"Message: "`,
/// `m` whole and a line end. Values are written in full at any length.
pub proof fn lemma_report_layout(location: Option<Seq<u8>>, message: Option<Seq<u8>>)
    ensures
        report_of(location, message).len() == 15 + (match location {
            Some(l) => 10 + l.len() + 1,
            None => 0,
        }) + (match message {
            Some(m) => 9 + m.len() + 1,
            None => 0,
        }),
        report_of(location, message).take(15) == seq![
            0x0Au8, 0x21u8, 0x21u8, 0x21u8, 0x20u8, 0x50u8, 0x41u8, 0x4Eu8, 0x49u8, 0x43u8,
            0x20u8, 0x21u8, 0x21u8, 0x21u8, 0x0Au8,
        ],
        location matches Some(l) ==> report_of(location, message).subrange(25, 25 + l.len() as int)
            == l,
        location matches Some(l) ==> report_of(location, message)[25 + l.len() as int] == 0x0Au8,
        location is Some ==> report_of(location, message).subrange(15, 25) == seq![
            0x4Cu8, 0x6Fu8, 0x63u8, 0x61u8, 0x74u8, 0x69u8, 0x6Fu8, 0x6Eu8, 0x3Au8, 0x20u8,
        ],
        message matches Some(m) ==> {
            let start = (15 + (match location {
                Some(l) => 10 + l.len() + 1,
                None => 0,
            }) + 9) as int;
            &&& report_of(location, message).subrange(start, start + m.len() as int) == m
            &&& report_of(location, message)[start + m.len() as int] == 0x0Au8
            &&& report_of(location, message).subrange(start - 9, start) == seq![
                0x4Du8, 0x65u8, 0x73u8, 0x73u8, 0x61u8, 0x67u8, 0x65u8, 0x3Au8, 0x20u8,
            ]
        },
{
    let r = report_of(location, message);
    let b = banner();
    let ll = labelled_line(location_label(), location);
    let ml = labelled_line(message_label(), message);
    assert(r == b + ll + ml);
    assert(r.take(15) == b);
    match location {
        Some(l) => {
            assert(ll == location_label() + l + line_end());
            assert(r.subrange(25, 25 + l.len() as int) == l);
            assert(r[25 + l.len() as int] == ll[10 + l.len() as int]);
            assert(r.subrange(15, 25) == location_label());
        },
        None => {
            assert(ll.len() == 0);
        },
    }
    match message {
        Some(m) => {
            let start = (15 + ll.len() + 9) as int;
            assert(ml == message_label() + m + line_end());
            assert(r.subrange(start, start + m.len() as int) == m);
            assert(r[start + m.len() as int] == ml[9 + m.len() as int]);
            assert(r.subrange(start - 9, start) == message_label());
        },
        None => {},
    }
}

proof fn lemma_flatten_line(label: Seq<u8>, value: Option<Seq<u8>>)
    ensures
        line_pieces(label, value).flatten() == labelled_line(label, value),
{
    reveal_with_fuel(Seq::<_>::flatten, 4);
    match value {
        Some(v) => {
            let p = seq![label, v, line_end()];
            assert(p.drop_first() == seq![v, line_end()]);
            assert(p.drop_first().drop_first() == seq![line_end()]);
            assert(p.drop_first().drop_first().drop_first() == Seq::<Seq<u8>>::empty());
            assert(p.flatten() == label + (v + (line_end() + Seq::<u8>::empty())));
            assert(label + (v + (line_end() + Seq::<u8>::empty())) == label + v + line_end());
        },
        None => {},
    }
}

proof fn lemma_flatten_concat(a: Seq<Seq<u8>>, b: Seq<Seq<u8>>)
    ensures
        (a + b).flatten() == a.flatten() + b.flatten(),
    decreases a.len(),
{
    if a.len() == 0 {
        assert(a + b == b);
        assert(a.flatten() + b.flatten() == b.flatten());
    } else {
        lemma_flatten_concat(a.drop_first(), b);
        assert((a + b).drop_first() == a.drop_first() + b);
        assert((a + b).first() == a.first());
        assert(a.first() + (a.drop_first().flatten() + b.flatten()) == (a.first()
            + a.drop_first().flatten()) + b.flatten());
    }
}

} // verus!
