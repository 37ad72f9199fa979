use vstd::prelude::*;

verus! {

/// The mathematical content of a patch record: the three seven-bit numbers
/// as unbounded integers, and the two text fields as character sequences.
#[verifier::ext_equal]
pub ghost struct PatchModel {
    pub pc: int,
    pub msb: int,
    pub lsb: int,
    pub name: Seq<char>,
    pub category: Seq<char>,
}

/// One selectable sound program: a program-change number, a bank-select
/// pair, and two human-readable labels that play no part in message
/// construction. Records are built once, at catalog load time, and never
/// mutated.
#[derive(Debug, Clone, PartialEq, Eq)]
pub struct Patch {
    pub pc: u8,
    pub msb: u8,
    pub lsb: u8,
    pub name: String,
    pub category: String,
}

impl Patch {
    /// The record invariant: every numeric field fits the seven-bit MIDI
    /// data range.
    pub open spec fn wf(self) -> bool {
        self.pc <= 127 && self.msb <= 127 && self.lsb <= 127
    }
}

impl View for Patch {
    type V = PatchModel;

    open spec fn view(&self) -> PatchModel {
        PatchModel {
            pc: self.pc as int,
            msb: self.msb as int,
            lsb: self.lsb as int,
            name: self.name@,
            category: self.category@,
        }
    }
}

impl DeepView for Patch {
    type V = PatchModel;

    open spec fn deep_view(&self) -> PatchModel {
        self.view()
    }
}

} // verus!
