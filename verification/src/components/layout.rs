//! The CSS classes of the layout grid: grids aligned left, right or centred, and
//! cells with spans per device class, a vertical alignment and an order.
use vstd::prelude::*;
use vstd::string::*;

use crate::net::{digit_char, digit_str};

verus! {

/// The decimal text of a number, without leading zeros.
pub open spec fn decimal(n: nat) -> Seq<char>
    decreases n,
{
    if n < 10 {
        seq![digit_char(n as int)]
    } else {
        decimal(n / 10).push(digit_char((n % 10) as int))
    }
}

/// Appends the decimal text of `n` to `out`.
pub fn push_u32(out: &mut String, n: u32)
    ensures
        final(out)@ == old(out)@ + decimal(n as nat),
    decreases n,
{
    if n >= 10 {
        push_u32(out, n / 10);
    }
    let d = (n % 10) as u8;
    out.append(digit_str(d));
    assert(out@ =~= old(out)@ + decimal(n as nat));
}

/// Appends the decimal text of `n` to `out`.
pub fn push_usize(out: &mut String, n: usize)
    ensures
        final(out)@ == old(out)@ + decimal(n as nat),
    decreases n,
{
    if n >= 10 {
        push_usize(out, n / 10);
    }
    let d = (n % 10) as u8;
    out.append(digit_str(d));
    assert(out@ =~= old(out)@ + decimal(n as nat));
}

#[derive(Clone, Copy, Debug, PartialEq, Eq, Structural)]
pub enum Align {
    Left,
    Right,
    Center,
}

impl Default for Align {
    fn default() -> (r: Self)
        ensures
            r == Align::Center,
    {
        Align::Center
    }
}

#[derive(Clone, Copy, Debug, PartialEq, Eq, Structural)]
pub enum VAlign {
    Top,
    Middle,
    Bottom,
    Stretch,
}

impl Default for VAlign {
    fn default() -> (r: Self)
        ensures
            r == VAlign::Stretch,
    {
        VAlign::Stretch
    }
}

/// The classes of a grid that is not nested: the grid's, and its alignment unless
/// centred. A nested grid has none of its own.
pub open spec fn grid_classes(inner: bool, align: Align) -> Seq<Seq<char>> {
    if inner {
        Seq::empty()
    } else {
        match align {
            Align::Left => seq!["mdc-layout-grid"@, "mdc-layout-grid--align-left"@],
            Align::Right => seq!["mdc-layout-grid"@, "mdc-layout-grid--align-right"@],
            Align::Center => seq!["mdc-layout-grid"@],
        }
    }
}

pub open spec fn strings_view(v: Seq<String>) -> Seq<Seq<char>> {
    v.map_values(|s: String| s@)
}

pub fn grid_class_list(inner: bool, align: Align) -> (r: Vec<String>)
    ensures
        strings_view(r@) == grid_classes(inner, align),
{
    proof {
        reveal_strlit("mdc-layout-grid");
        reveal_strlit("mdc-layout-grid--align-left");
        reveal_strlit("mdc-layout-grid--align-right");
    }
    let mut r: Vec<String> = Vec::new();
    if !inner {
        r.push(String::from_str("mdc-layout-grid"));
        match align {
            Align::Left => r.push(String::from_str("mdc-layout-grid--align-left")),
            Align::Right => r.push(String::from_str("mdc-layout-grid--align-right")),
            Align::Center => {},
        }
    }
    assert(strings_view(r@) =~= grid_classes(inner, align));
    r
}

/// The layout properties of a cell.
#[derive(Clone, Copy, Debug, PartialEq, Eq, Structural)]
pub struct CellLayout {
    pub valign: VAlign,
    pub order: Option<u32>,
    pub span: Option<u32>,
    pub span_desktop: Option<u32>,
    pub span_tablet: Option<u32>,
    pub span_phone: Option<u32>,
}

pub open spec fn span_class(span: Option<u32>, suffix: Seq<char>) -> Seq<Seq<char>> {
    match span {
        Some(n) => seq!["mdc-layout-grid__cell--span-"@ + decimal(n as nat) + suffix],
        None => Seq::empty(),
    }
}

pub open spec fn valign_class(v: VAlign) -> Seq<Seq<char>> {
    match v {
        VAlign::Top => seq!["mdc-layout-grid__cell--align-top"@],
        VAlign::Middle => seq!["mdc-layout-grid__cell--align-middle"@],
        VAlign::Bottom => seq!["mdc-layout-grid__cell--align-bottom"@],
        VAlign::Stretch => Seq::empty(),
    }
}

pub open spec fn order_class(order: Option<u32>) -> Seq<Seq<char>> {
    match order {
        Some(n) => seq!["mdc-layout-grid__cell--order-"@ + decimal(n as nat)],
        None => Seq::empty(),
    }
}

/// The classes of a cell: the cell's; a span class for each span given, for all
/// devices, desktops, tablets and phones in that order; the vertical alignment
/// unless stretched; the order if given.
pub open spec fn cell_classes(c: CellLayout) -> Seq<Seq<char>> {
    seq!["mdc-layout-grid__cell"@] + span_class(c.span, Seq::empty()) + span_class(
        c.span_desktop,
        "-desktop"@,
    ) + span_class(c.span_tablet, "-tablet"@) + span_class(c.span_phone, "-phone"@)
        + valign_class(c.valign) + order_class(c.order)
}

fn push_span(r: &mut Vec<String>, span: Option<u32>, suffix: &str)
    ensures
        strings_view(final(r)@) == strings_view(old(r)@) + span_class(span, suffix@),
{
    proof { reveal_strlit("mdc-layout-grid__cell--span-"); }
    match span {
        Some(n) => {
            let mut s = String::from_str("mdc-layout-grid__cell--span-");
            push_u32(&mut s, n);
            s.append(suffix);
            r.push(s);
        },
        None => {},
    }
    assert(strings_view(r@) =~= strings_view(old(r)@) + span_class(span, suffix@));
}

pub fn cell_class_list(c: CellLayout) -> (r: Vec<String>)
    ensures
        strings_view(r@) == cell_classes(c),
{
    proof {
        reveal_strlit("mdc-layout-grid__cell");
        reveal_strlit("");
        reveal_strlit("-desktop");
        reveal_strlit("-tablet");
        reveal_strlit("-phone");
        reveal_strlit("mdc-layout-grid__cell--align-top");
        reveal_strlit("mdc-layout-grid__cell--align-middle");
        reveal_strlit("mdc-layout-grid__cell--align-bottom");
        reveal_strlit("mdc-layout-grid__cell--order-");
    }
    let mut r: Vec<String> = Vec::new();
    r.push(String::from_str("mdc-layout-grid__cell"));
    let ghost s0 = strings_view(r@);
    assert(s0 =~= seq!["mdc-layout-grid__cell"@]);
    push_span(&mut r, c.span, "");
    push_span(&mut r, c.span_desktop, "-desktop");
    push_span(&mut r, c.span_tablet, "-tablet");
    push_span(&mut r, c.span_phone, "-phone");
    let ghost s1 = strings_view(r@);
    match c.valign {
        VAlign::Top => r.push(String::from_str("mdc-layout-grid__cell--align-top")),
        VAlign::Middle => r.push(String::from_str("mdc-layout-grid__cell--align-middle")),
        VAlign::Bottom => r.push(String::from_str("mdc-layout-grid__cell--align-bottom")),
        VAlign::Stretch => {},
    }
    assert(strings_view(r@) =~= s1 + valign_class(c.valign));
    let ghost s2 = strings_view(r@);
    match c.order {
        Some(n) => {
            let mut s = String::from_str("mdc-layout-grid__cell--order-");
            push_u32(&mut s, n);
            r.push(s);
        },
        None => {},
    }
    assert(strings_view(r@) =~= s2 + order_class(c.order));
    assert(cell_classes(c) =~= s0 + span_class(c.span, Seq::empty()) + span_class(
        c.span_desktop,
        "-desktop"@,
    ) + span_class(c.span_tablet, "-tablet"@) + span_class(c.span_phone, "-phone"@)
        + valign_class(c.valign) + order_class(c.order));
    r
}

} // verus!
