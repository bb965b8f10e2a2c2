use vstd::prelude::*;
use crate::frame_size::{parse_decimal, parse_decimal_spec, round_half_even};
use crate::text::{char_len, find_char, first_index, parse_u32, parse_u32_spec, substring};

verus! {

/// A frame rate as ffprobe gives it, and its value as a fraction `num / den`.
pub struct FrameRate {
    pub r_frame_rate: String,
    pub num: u64,
    pub den: u64,
}

/// The part of `s` between its first `/` and the next one (or the end).
pub open spec fn after_slash(s: Seq<char>) -> Seq<char> {
    let rest = s.subrange(first_index(s, '/') + 1, s.len() as int);
    let k2 = first_index(rest, '/');
    if k2 < 0 { rest } else { rest.subrange(0, k2) }
}

/// The value of a frame rate text as a fraction: a decimal number (see
/// `parse_decimal_spec`);
/// else `A/B` of two `u32` with B not zero; else 24.
pub open spec fn frame_rate_value(s: Seq<char>) -> (nat, nat) {
    match parse_decimal_spec(s) {
        Some(v) => v,
        None => if first_index(s, '/') < 0 {
            (24, 1)
        } else {
            let left = s.subrange(0, first_index(s, '/'));
            match (parse_u32_spec(left), parse_u32_spec(after_slash(s))) {
                (Ok(l), Ok(r)) => if r != 0 { (l as nat, r as nat) } else { (24, 1) },
                _ => (24, 1),
            }
        }
    }
}

impl FrameRate {
    pub open spec fn wf(&self) -> bool {
        self.den > 0 && self.num <= u32::MAX
    }

    /// Parses an ffprobe frame rate (see `frame_rate_value`).
    pub fn parse(r_frame_rate: &str) -> (r: FrameRate)
        ensures
            r.wf(),
            r.r_frame_rate@ == r_frame_rate@,
            (r.num as nat, r.den as nat) == frame_rate_value(r_frame_rate@),
    {
        proof { crate::text::lemma_first_index(r_frame_rate@, '/'); }
        let (num, den): (u64, u64) = match parse_decimal(r_frame_rate) {
            Some((n, d)) => {
                proof { crate::frame_size::lemma_parse_decimal_bounds(r_frame_rate@); }
                (n, d)
            },
            None => {
                let n = char_len(r_frame_rate);
                let k = match find_char(r_frame_rate, '/') {
                    Some(k) => k,
                    None => {
                        return FrameRate { r_frame_rate: r_frame_rate.to_owned(), num: 24, den: 1 };
                    },
                };
                let left = substring(r_frame_rate, 0, k);
                let rest = substring(r_frame_rate, k + 1, n);
                proof { crate::text::lemma_first_index(rest@, '/'); }
                let right = match find_char(rest, '/') {
                    Some(k2) => substring(rest, 0, k2),
                    None => rest,
                };
                match (parse_u32(left), parse_u32(right)) {
                    (Ok(l), Ok(r)) => if r != 0 { (l as u64, r as u64) } else { (24, 1) },
                    _ => (24, 1),
                }
            },
        };
        FrameRate { r_frame_rate: r_frame_rate.to_owned(), num, den }
    }

    /// The frame rate rounded to the nearest integer, ties to even.
    pub fn rounded(&self) -> (r: u64)
        requires
            self.wf(),
        ensures
            r == round_half_even(self.num as nat, self.den as nat),
    {
        let q = self.num / self.den;
        let m = self.num % self.den;
        if m > self.den - m {
            q + 1
        } else if m < self.den - m {
            q
        } else if q % 2 == 1 {
            q + 1
        } else {
            q
        }
    }

    /// A copy of the frame rate.
    pub fn duplicate(&self) -> (r: FrameRate)
        ensures
            r == *self,
    {
        FrameRate { r_frame_rate: self.r_frame_rate.clone(), num: self.num, den: self.den }
    }
}

} // verus!
