//! Estimates of how many bytes OSC values take on the wire.
//!
//! The estimates follow fixed per-type counts; a string of `n` bytes is
//! counted as `n + 4 % n`, so an empty string (address or argument) cannot be
//! counted, and such values have no estimate.
use crate::osc::{byte_len, OscArg, OscBundle, OscElement, OscMessage};
use vstd::prelude::*;

verus! {

/// The count for a string of `n` bytes, where `n` is not zero.
pub open spec fn counted_string_size(n: int) -> Option<int> {
    if n > 0 {
        Some(n + 4int % n)
    } else {
        None
    }
}

/// Adds two optional counts: nothing where either is missing.
pub open spec fn add_counts(a: Option<int>, b: Option<int>) -> Option<int> {
    match (a, b) {
        (Some(x), Some(y)) => Some(x + y),
        _ => None,
    }
}

/// The estimate for one message argument.
pub open spec fn arg_size(t: OscArg) -> Option<int>
    decreases t, 0int,
{
    match t {
        OscArg::Time(_) => Some(8),
        OscArg::Int(_) => Some(4),
        OscArg::Float(_) => Some(4),
        OscArg::String(s) => counted_string_size(byte_len(s@)),
        OscArg::Blob(b) => Some(b@.len() as int),
        OscArg::Long(_) => Some(8),
        OscArg::Double(_) => Some(8),
        OscArg::Char(_) => Some(4),
        OscArg::Color(..) => Some(4),
        OscArg::Midi(..) => Some(4),
        OscArg::Bool(_) => Some(0),
        OscArg::Array(a) => add_counts(Some(12), array_items_size(a@, a@.len() as int)),
        OscArg::Nil => Some(0),
        OscArg::Inf => Some(0),
    }
}

/// The estimate for an item inside an array: a nested array is counted
/// without the four bytes that a top-level array argument adds.
pub open spec fn array_item_size(t: OscArg) -> Option<int>
    decreases t, 1int,
{
    match t {
        OscArg::Array(a) => add_counts(Some(8), array_items_size(a@, a@.len() as int)),
        _ => arg_size(t),
    }
}

/// The estimates of the first `n` items of an array, summed.
pub open spec fn array_items_size(items: Seq<OscArg>, n: int) -> Option<int>
    decreases items, n,
{
    if n <= 0 || n > items.len() {
        Some(0)
    } else {
        add_counts(array_items_size(items, n - 1), array_item_size(items[n - 1]))
    }
}

/// The estimates of the first `n` arguments of a message, summed.
pub open spec fn args_size(args: Seq<OscArg>, n: int) -> Option<int>
    decreases n,
{
    if n <= 0 || n > args.len() {
        Some(0)
    } else {
        add_counts(args_size(args, n - 1), arg_size(args[n - 1]))
    }
}

/// The estimate for a message: its address, its arguments, and four bytes
/// of type tag for the leading comma and for each argument.
pub open spec fn message_size(m: OscMessage) -> Option<int> {
    add_counts(
        add_counts(counted_string_size(byte_len(m.addr@)), args_size(m.args@, m.args@.len() as int)),
        Some(4 + 4 * (m.args@.len() as int)),
    )
}

/// The estimate for a bundle: sixteen bytes of header and time tag, and for
/// each element four bytes of length and the element's own estimate.
pub open spec fn bundle_size(b: OscBundle) -> Option<int>
    decreases b, 1int,
{
    add_counts(Some(16), elements_size(b.content@, b.content@.len() as int))
}

/// The estimates of the first `n` elements of a bundle, each with its four bytes of length.
pub open spec fn elements_size(ps: Seq<OscElement>, n: int) -> Option<int>
    decreases ps, n,
{
    if n <= 0 || n > ps.len() {
        Some(0)
    } else {
        add_counts(
            elements_size(ps, n - 1),
            add_counts(
                Some(4),
                match ps[n - 1] {
                    OscElement::Message(m) => message_size(m),
                    OscElement::Bundle(b) => bundle_size(b),
                },
            ),
        )
    }
}

/// The counts of an array's items are never negative, and a prefix counts no more than the whole.
proof fn lemma_array_items_prefix(items: Seq<OscArg>, i: int, n: int)
    requires
        0 <= i <= n <= items.len(),
        array_items_size(items, n) is Some,
    ensures
        array_items_size(items, i) is Some,
        0 <= array_items_size(items, i)->0 <= array_items_size(items, n)->0,
    decreases n - i,
{
    if i < n {
        lemma_item_nonneg(items[n - 1]);
        lemma_array_items_prefix(items, i, n - 1);
    } else {
        lemma_array_items_nonneg(items, n);
    }
}

proof fn lemma_array_items_nonneg(items: Seq<OscArg>, n: int)
    requires
        array_items_size(items, n) is Some,
    ensures
        array_items_size(items, n)->0 >= 0,
    decreases items, n,
{
    if 0 < n <= items.len() {
        lemma_item_nonneg(items[n - 1]);
        lemma_array_items_nonneg(items, n - 1);
    }
}

proof fn lemma_item_nonneg(t: OscArg)
    requires
        array_item_size(t) is Some,
    ensures
        array_item_size(t)->0 >= 0,
        arg_size(t) is Some,
        arg_size(t)->0 >= 0,
    decreases t, 0int,
{
    match t {
        OscArg::Array(a) => {
            lemma_array_items_nonneg(a@, a@.len() as int);
        },
        _ => {},
    }
}

proof fn lemma_array_items_nonneg_outer(items: Seq<OscArg>)
    requires
        array_items_size(items, items.len() as int) is Some,
    ensures
        array_items_size(items, items.len() as int)->0 >= 0,
{
    lemma_array_items_nonneg(items, items.len() as int);
}

proof fn lemma_args_prefix(args: Seq<OscArg>, i: int, n: int)
    requires
        0 <= i <= n <= args.len(),
        args_size(args, n) is Some,
    ensures
        args_size(args, i) is Some,
        0 <= args_size(args, i)->0 <= args_size(args, n)->0,
    decreases n - i,
{
    if i < n {
        lemma_arg_nonneg(args[n - 1]);
        lemma_args_prefix(args, i, n - 1);
    } else {
        lemma_args_nonneg(args, n);
    }
}

proof fn lemma_args_nonneg(args: Seq<OscArg>, n: int)
    requires
        args_size(args, n) is Some,
    ensures
        args_size(args, n)->0 >= 0,
    decreases n,
{
    if 0 < n <= args.len() {
        lemma_arg_nonneg(args[n - 1]);
        lemma_args_nonneg(args, n - 1);
    }
}

proof fn lemma_arg_nonneg(t: OscArg)
    requires
        arg_size(t) is Some,
    ensures
        arg_size(t)->0 >= 0,
{
    match t {
        OscArg::Array(a) => {
            lemma_array_items_nonneg_outer(a@);
        },
        _ => {},
    }
}

proof fn lemma_elements_prefix(ps: Seq<OscElement>, i: int, n: int)
    requires
        0 <= i <= n <= ps.len(),
        elements_size(ps, n) is Some,
    ensures
        elements_size(ps, i) is Some,
        0 <= elements_size(ps, i)->0 <= elements_size(ps, n)->0,
    decreases n - i,
{
    if i < n {
        lemma_element_nonneg(ps[n - 1]);
        lemma_elements_prefix(ps, i, n - 1);
    } else {
        lemma_elements_nonneg(ps, n);
    }
}

proof fn lemma_elements_nonneg(ps: Seq<OscElement>, n: int)
    requires
        elements_size(ps, n) is Some,
    ensures
        elements_size(ps, n)->0 >= 0,
    decreases ps, n,
{
    if 0 < n <= ps.len() {
        lemma_element_nonneg(ps[n - 1]);
        lemma_elements_nonneg(ps, n - 1);
    }
}

proof fn lemma_element_nonneg(p: OscElement)
    requires
        match p {
            OscElement::Message(m) => message_size(m) is Some,
            OscElement::Bundle(b) => bundle_size(b) is Some,
        },
    ensures
        match p {
            OscElement::Message(m) => message_size(m)->0 >= 0,
            OscElement::Bundle(b) => bundle_size(b)->0 >= 0,
        },
    decreases p, 0int,
{
    match p {
        OscElement::Message(m) => {
            lemma_args_nonneg(m.args@, m.args@.len() as int);
        },
        OscElement::Bundle(b) => {
            lemma_elements_nonneg(b.content@, b.content@.len() as int);
        },
    }
}

/// The byte length of `s`, where it is counted: `n + 4 % n` for `n` bytes.
fn estimate_string_size(s: &String) -> (r: usize)
    requires
        counted_string_size(byte_len(s@)) matches Some(x) && x <= usize::MAX,
    ensures
        Some(r as int) == counted_string_size(byte_len(s@)),
{
    let base_len = s.as_str().len();
    assert(base_len == byte_len(s@));
    base_len + 4 % base_len
}

/// Estimates the size of an array's items, with eight bytes for its opening and closing tags.
fn estimate_osc_array_size(osc_array: &Vec<OscArg>) -> (r: usize)
    requires
        add_counts(Some(8), array_items_size(osc_array@, osc_array@.len() as int)) matches Some(x)
            && x <= usize::MAX,
    ensures
        Some(r as int) == add_counts(
            Some(8),
            array_items_size(osc_array@, osc_array@.len() as int),
        ),
    decreases osc_array, 0int,
{
    let ghost items = osc_array@;
    let n = osc_array.len();
    let type_tag_size: usize = 8;
    let mut final_size: usize = 0;
    let mut i: usize = 0;
    proof {
        lemma_array_items_prefix(items, 0, n as int);
    }
    while i < n
        invariant
            items == osc_array@,
            n == items.len(),
            i <= n,
            array_items_size(items, n as int) matches Some(x) && x + 8 <= usize::MAX,
            Some(final_size as int) == array_items_size(items, i as int),
        decreases n - i,
    {
        proof {
            lemma_array_items_prefix(items, i + 1, n as int);
            lemma_item_nonneg(items[i as int]);
        }
        let item = &osc_array[i];
        let s = match item {
            OscArg::Array(a) => {
                proof {
                    assert(decreases_to!(osc_array => osc_array@));
                    assert(decreases_to!(osc_array@ => osc_array@[i as int]));
                    assert(decreases_to!(osc_array@[i as int] => *a));
                }
                estimate_osc_array_size(a)
            },
            etc => estimate_osc_type_size(etc),
        };
        final_size = final_size + s;
        i = i + 1;
    }
    final_size + type_tag_size
}

/// Estimates the size of one message argument.
fn estimate_osc_type_size(osc_type: &OscArg) -> (r: usize)
    requires
        arg_size(*osc_type) matches Some(x) && x <= usize::MAX,
    ensures
        Some(r as int) == arg_size(*osc_type),
    decreases osc_type, 1int,
{
    match osc_type {
        OscArg::Time(_) => 8,
        OscArg::Int(_) => 4,
        OscArg::Float(_) => 4,
        OscArg::String(s) => estimate_string_size(s),
        OscArg::Blob(b) => b.len(),
        OscArg::Long(_) => 8,
        OscArg::Double(_) => 8,
        OscArg::Char(_) => 4,
        OscArg::Color(..) => 4,
        OscArg::Midi(..) => 4,
        OscArg::Bool(_) => 0,
        OscArg::Array(a) => {
            proof {
                lemma_array_items_nonneg_outer(a@);
            }
            4 + estimate_osc_array_size(a)
        },
        OscArg::Nil => 0,
        OscArg::Inf => 0,
    }
}

/// Estimates the size of a message: its address counted as a string, each
/// argument's estimate, and four bytes of type tag for the comma and each argument.
/// A message with an empty address, or an empty string argument, has no estimate.
pub fn estimate_message_size(message: &OscMessage) -> (r: usize)
    requires
        message_size(*message) matches Some(x) && x <= usize::MAX,
    ensures
        Some(r as int) == message_size(*message),
{
    let ghost args = message.args@;
    let n = message.args.len();
    proof {
        lemma_args_prefix(args, 0, n as int);
        lemma_args_nonneg(args, n as int);
    }
    let mut size = estimate_string_size(&message.addr);
    let mut type_tag_size: usize = 4;
    let mut i: usize = 0;
    while i < n
        invariant
            args == message.args@,
            n == args.len(),
            i <= n,
            message_size(*message) matches Some(x) && x <= usize::MAX,
            args_size(args, n as int) is Some,
            counted_string_size(byte_len(message.addr@)) is Some,
            Some(size as int) == add_counts(
                counted_string_size(byte_len(message.addr@)),
                args_size(args, i as int),
            ),
            type_tag_size == 4 + 4 * i,
        decreases n - i,
    {
        proof {
            lemma_args_prefix(args, i + 1, n as int);
            lemma_arg_nonneg(args[i as int]);
        }
        type_tag_size = type_tag_size + 4;
        size = size + estimate_osc_type_size(&message.args[i]);
        i = i + 1;
    }
    size + type_tag_size
}

/// Estimates the size of a bundle: sixteen bytes of header and time tag, and
/// for each element four bytes of length and its own estimate, nested bundles
/// included. A bundle with a message that has no estimate has none.
pub fn estimate_bundle_size(bundle: &OscBundle) -> (r: usize)
    requires
        bundle_size(*bundle) matches Some(x) && x <= usize::MAX,
    ensures
        Some(r as int) == bundle_size(*bundle),
    decreases bundle,
{
    let ghost ps = bundle.content@;
    let n = bundle.content.len();
    let mut size: usize = 16;
    let mut i: usize = 0;
    proof {
        lemma_elements_prefix(ps, 0, n as int);
    }
    while i < n
        invariant
            ps == bundle.content@,
            n == ps.len(),
            i <= n,
            elements_size(ps, n as int) matches Some(x) && x + 16 <= usize::MAX,
            Some(size as int) == add_counts(Some(16), elements_size(ps, i as int)),
        decreases n - i,
    {
        proof {
            lemma_elements_prefix(ps, i + 1, n as int);
            lemma_element_nonneg(ps[i as int]);
        }
        size = size + 4;
        let s = match &bundle.content[i] {
            OscElement::Message(msg) => estimate_message_size(msg),
            OscElement::Bundle(b) => {
                proof {
                    assert(decreases_to!(bundle => bundle.content));
                    assert(decreases_to!(bundle.content => bundle.content@));
                    assert(decreases_to!(bundle.content@ => bundle.content@[i as int]));
                }
                estimate_bundle_size(b)
            },
        };
        size = size + s;
        i = i + 1;
    }
    size
}

} // verus!
