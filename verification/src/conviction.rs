//! The conviction multiplier of a vote: a lock-up commitment from one to
//! six periods.

use vstd::prelude::*;

verus! {

#[derive(Clone, Copy, Debug, PartialEq, Eq, Structural)]
pub enum Conviction {
    Lock1X,
    Lock2X,
    Lock3X,
    Lock4X,
    Lock5X,
    Lock6X,
}

/// The lock-period count of a conviction, one through six.
pub open spec fn spec_weight(c: Conviction) -> u8 {
    match c {
        Conviction::Lock1X => 1,
        Conviction::Lock2X => 2,
        Conviction::Lock3X => 3,
        Conviction::Lock4X => 4,
        Conviction::Lock5X => 5,
        Conviction::Lock6X => 6,
    }
}

impl Conviction {
    /// The single-byte wire value of an aye vote under this conviction:
    /// the aye bit (128) plus the conviction weight.
    pub fn to_value(&self) -> (r: u8)
        ensures
            r == 128 + spec_weight(*self),
    {
        match self {
            Conviction::Lock1X => 129,
            Conviction::Lock2X => 130,
            Conviction::Lock3X => 131,
            Conviction::Lock4X => 132,
            Conviction::Lock5X => 133,
            Conviction::Lock6X => 134,
        }
    }

    /// Every conviction, in ascending lock order.
    pub fn all() -> (r: Vec<Conviction>)
        ensures
            r@ == seq![
                Conviction::Lock1X,
                Conviction::Lock2X,
                Conviction::Lock3X,
                Conviction::Lock4X,
                Conviction::Lock5X,
                Conviction::Lock6X,
            ],
    {
        let mut r: Vec<Conviction> = Vec::new();
        r.push(Conviction::Lock1X);
        r.push(Conviction::Lock2X);
        r.push(Conviction::Lock3X);
        r.push(Conviction::Lock4X);
        r.push(Conviction::Lock5X);
        r.push(Conviction::Lock6X);
        proof {
            assert(r@ =~= seq![
                Conviction::Lock1X,
                Conviction::Lock2X,
                Conviction::Lock3X,
                Conviction::Lock4X,
                Conviction::Lock5X,
                Conviction::Lock6X,
            ]);
        }
        r
    }

    /// The short label shown beside the lock buttons, `"1x"` through
    /// `"6x"`.
    pub fn label(&self) -> (r: &'static str)
        ensures
            r@ == spec_label(*self),
    {
        proof {
            reveal_strlit("1x");
            reveal_strlit("2x");
            reveal_strlit("3x");
            reveal_strlit("4x");
            reveal_strlit("5x");
            reveal_strlit("6x");
        }
        match self {
            Conviction::Lock1X => "1x",
            Conviction::Lock2X => "2x",
            Conviction::Lock3X => "3x",
            Conviction::Lock4X => "4x",
            Conviction::Lock5X => "5x",
            Conviction::Lock6X => "6x",
        }
    }
}

pub open spec fn spec_label(c: Conviction) -> Seq<char> {
    seq![crate::hexstr::hex_digit_char(spec_weight(c) as nat), 'x']
}

} // verus!
