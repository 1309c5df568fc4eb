//! Texture descriptors: a side length `n` followed by `n * n` pixels.

use vstd::prelude::*;

verus! {

/// A texture as its raw integers. A malformed descriptor is kept as it came
/// and reported invalid rather than refused.
#[derive(Clone, Debug)]
pub struct TextureInfo(pub Vec<i32>);

/// The side length of a well-formed descriptor: a positive first element `n`
/// followed by exactly `n * n` more elements.
pub open spec fn texture_side(d: Seq<i32>) -> Option<int> {
    if d.len() > 0 && d[0] > 0 && d.len() == 1 + d[0] * d[0] {
        Some(d[0] as int)
    } else {
        None
    }
}

/// The decimal digits of `n`, most significant first.
pub open spec fn decimal(n: nat) -> Seq<char>
    decreases n,
{
    if n < 10 {
        seq![((n + 48) as u8) as char]
    } else {
        decimal(n / 10).push((((n % 10) + 48) as u8) as char)
    }
}

/// How a descriptor reads to a person: `[NxN texture]`, or `[invalid texture]`.
pub open spec fn texture_text(d: Seq<i32>) -> Seq<char> {
    match texture_side(d) {
        Some(n) => "["@ + decimal(n as nat) + "x"@ + decimal(n as nat) + " texture]"@,
        None => "[invalid texture]"@,
    }
}

/// Relies on `String::push`: appends one character.
#[verifier::external_body]
fn push_char(s: &mut String, c: char)
    ensures
        final(s)@ == old(s)@.push(c),
{
    s.push(c)
}

/// Relies on `String::push_str`: appends the characters of `t`.
#[verifier::external_body]
fn push_text(s: &mut String, t: &str)
    ensures
        final(s)@ == old(s)@ + t@,
{
    s.push_str(t)
}

fn push_decimal(s: &mut String, n: u32)
    ensures
        final(s)@ == old(s)@ + decimal(n as nat),
    decreases n,
{
    let c = ((n % 10) as u8 + 48) as char;
    if n >= 10 {
        push_decimal(s, n / 10);
        push_char(s, c);
        assert(s@ =~= old(s)@ + decimal(n as nat));
    } else {
        push_char(s, c);
        assert(s@ =~= old(s)@ + decimal(n as nat));
    }
}

impl TextureInfo {
    /// The descriptor as it reads to a person: `[NxN texture]` for a well-formed
    /// descriptor of side `N`, else `[invalid texture]`.
    pub fn describe(&self) -> (r: String)
        ensures
            r@ == texture_text(self.0@),
    {
        let mut s = String::new();
        match self.side() {
            Some(n) => {
                push_text(&mut s, "[");
                push_decimal(&mut s, n);
                push_text(&mut s, "x");
                push_decimal(&mut s, n);
                push_text(&mut s, " texture]");
                assert(s@ =~= texture_text(self.0@));
            },
            None => {
                push_text(&mut s, "[invalid texture]");
                assert(s@ =~= texture_text(self.0@));
            },
        }
        s
    }

    /// The side length, or `None` where the descriptor is malformed.
    pub fn side(&self) -> (r: Option<u32>)
        ensures
            match r {
                Some(n) => texture_side(self.0@) == Some(n as int),
                None => texture_side(self.0@) is None,
            },
    {
        if self.0.len() == 0 || self.0[0] <= 0 {
            return None;
        }
        let n = self.0[0] as u64;
        assert(n * n <= 0x7fff_ffff * 0x7fff_ffff) by (nonlinear_arith)
            requires
                0 < n <= 0x7fff_ffff,
        ;
        if self.0.len() as u64 == 1 + n * n {
            Some(n as u32)
        } else {
            None
        }
    }

    /// Whether the descriptor is well formed.
    pub fn is_valid(&self) -> (r: bool)
        ensures
            r == texture_side(self.0@) is Some,
    {
        self.side().is_some()
    }
}

} // verus!
