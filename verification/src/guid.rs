//! Interface identifiers.

use vstd::prelude::*;

verus! {

/// A 128-bit identifier, globally unique for one interface variant.
///
/// The four fields are the identifier's usual grouping: one 32-bit word, two
/// 16-bit words and eight single bytes.
#[derive(Clone, Copy, Debug)]
pub struct Guid {
    pub data1: u32,
    pub data2: u16,
    pub data3: u16,
    pub data4: [u8; 8],
}

impl PartialEq for Guid {
    fn eq(&self, other: &Guid) -> (r: bool) {
        let r = self.data1 == other.data1 && self.data2 == other.data2 && self.data3
            == other.data3 && self.data4[0] == other.data4[0] && self.data4[1] == other.data4[1]
            && self.data4[2] == other.data4[2] && self.data4[3] == other.data4[3] && self.data4[4]
            == other.data4[4] && self.data4[5] == other.data4[5] && self.data4[6] == other.data4[6]
            && self.data4[7] == other.data4[7];
        proof {
            if r {
                assert(self.data4@ =~= other.data4@);
                assert(self.data4 =~= other.data4);
            }
        }
        r
    }
}

impl Eq for Guid {}

impl vstd::std_specs::cmp::PartialEqSpecImpl for Guid {
    open spec fn obeys_eq_spec() -> bool {
        true
    }

    open spec fn eq_spec(&self, other: &Guid) -> bool {
        *self == *other
    }
}

} // verus!
