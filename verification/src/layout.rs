//! The pixel layout: one record per line, `"<index>: <x> <y> <z>"`.
//!
//! The index is one to nine decimal digits; the coordinates are
//! fixed-point decimals. A line of any other shape is not a record and is
//! ignored by the loader; a record whose index or position the controller
//! cannot hold is a configuration error it reports.

use vstd::prelude::*;

use crate::fixed::abs_spec;
use crate::text::{digit_run_end, digits_val, find_from, lemma_digit_run_end_bounds,
    lemma_digits_val_bounds, lemma_pow10_le, parse_fixed,
    parse_fixed_spec, pow10, find_byte};
use crate::vec3::Vec3;

verus! {

/// What a layout line denotes: its record, or nothing when it is not well
/// shaped.
pub open spec fn parse_layout_line_spec(s: Seq<u8>) -> Option<(usize, Vec3)> {
    let k = digit_run_end(s, 0);
    if !(1 <= k <= 9 && k + 1 < s.len() && s[k] == 58 && s[k + 1] == 32) {
        None
    } else {
        let e1 = find_from(s, k + 2, 32);
        let e2 = find_from(s, e1 + 1, 32);
        if !(e1 < s.len() && e2 < s.len() && find_from(s, e2 + 1, 32) == s.len()) {
            None
        } else {
            match (
                parse_fixed_spec(s.subrange(k + 2, e1)),
                parse_fixed_spec(s.subrange(e1 + 1, e2)),
                parse_fixed_spec(s.subrange(e2 + 1, s.len() as int)),
            ) {
                (Some(x), Some(y), Some(z)) => Some(
                    (digits_val(s.subrange(0, k)) as usize, Vec3 { x, y, z }),
                ),
                _ => None,
            }
        }
    }
}

/// Parse one layout line.
pub fn parse_layout_line(s: &[u8]) -> (r: Option<(usize, Vec3)>)
    ensures
        r == parse_layout_line_spec(s@),
        r matches Some(e) ==> e.0 < 1000000000 && abs_spec(e.1.x as int) < 1000000000000000
            && abs_spec(e.1.y as int) < 1000000000000000 && abs_spec(e.1.z as int)
            < 1000000000000000,
{
    let (k, index) = crate::text::scan_digits(s, 0);
    if !(1 <= k && k <= 9 && k + 1 < s.len()) {
        return None;
    }
    if !(s[k] == 58 && s[k + 1] == 32) {
        return None;
    }
    proof {
        lemma_digit_run_end_bounds(s@, 0);
        lemma_digits_val_bounds(s@.subrange(0, k as int));
        lemma_pow10_le(k as int, 9);
        reveal_with_fuel(pow10, 10);
        assert(pow10(9) == 1000000000);
    }
    let e1 = find_byte(s, k + 2, 32);
    if e1 >= s.len() {
        return None;
    }
    let e2 = find_byte(s, e1 + 1, 32);
    if e2 >= s.len() {
        return None;
    }
    let e3 = find_byte(s, e2 + 1, 32);
    if e3 != s.len() {
        return None;
    }
    let xs = vstd::slice::slice_subrange(s, k + 2, e1);
    let ys = vstd::slice::slice_subrange(s, e1 + 1, e2);
    let zs = vstd::slice::slice_subrange(s, e2 + 1, s.len());
    let x = match parse_fixed(xs) {
        Some(v) => v,
        None => {
            return None;
        },
    };
    let y = match parse_fixed(ys) {
        Some(v) => v,
        None => {
            return None;
        },
    };
    let z = match parse_fixed(zs) {
        Some(v) => v,
        None => {
            return None;
        },
    };
    Some((index as usize, Vec3::new(x, y, z)))
}

/// The records of a sequence of lines, in order, lines of any other shape
/// skipped.
pub open spec fn layout_entries(lines: Seq<Seq<u8>>) -> Seq<(usize, Vec3)>
    decreases lines.len(),
{
    if lines.len() == 0 {
        Seq::empty()
    } else {
        let rest = layout_entries(lines.drop_last());
        match parse_layout_line_spec(lines.last()) {
            Some(e) => rest.push(e),
            None => rest,
        }
    }
}

/// Parse every line of a layout file.
pub fn parse_layout(lines: &Vec<Vec<u8>>) -> (r: Vec<(usize, Vec3)>)
    ensures
        r@ == layout_entries(lines@.map_values(|l: Vec<u8>| l@)),
        forall|i: int| 0 <= i < r@.len() ==> (#[trigger] r@[i]).0 < 1000000000,
{
    let ghost views = lines@.map_values(|l: Vec<u8>| l@);
    let mut out: Vec<(usize, Vec3)> = Vec::new();
    let n = lines.len();
    let mut i: usize = 0;
    while i < n
        invariant
            n == lines@.len(),
            i <= n,
            views == lines@.map_values(|l: Vec<u8>| l@),
            out@ == layout_entries(views.take(i as int)),
            forall|j: int| 0 <= j < out@.len() ==> (#[trigger] out@[j]).0 < 1000000000,
        decreases n - i,
    {
        proof {
            assert(views.take(i + 1).drop_last() =~= views.take(i as int));
            assert(views.take(i + 1).last() == views[i as int]);
        }
        match parse_layout_line(lines[i].as_slice()) {
            Some(e) => {
                out.push(e);
            },
            None => {},
        }
        i = i + 1;
    }
    proof {
        assert(views.take(n as int) =~= views);
    }
    out
}

} // verus!
