//! The machine types the library handles.
use vstd::prelude::*;

verus! {

/// The machine an image is built for.
#[derive(Debug, Copy, Clone, PartialEq, Eq, Structural)]
pub enum Architecture {
    X64,
    X32,
}

/// The machine field of an AMD64 image.
pub const MACHINE_AMD64: u16 = 0x8664;

/// The machine field of an i386 image.
pub const MACHINE_I386: u16 = 0x14C;

/// The machine values that name an architecture of the library.
pub open spec fn is_known_machine(machine: u16) -> bool {
    machine == MACHINE_AMD64 || machine == MACHINE_I386
}

/// The architecture that a known machine value names.
pub open spec fn spec_architecture(machine: u16) -> Architecture {
    if machine == MACHINE_AMD64 {
        Architecture::X64
    } else {
        Architecture::X32
    }
}

/// The name under which an architecture is shown.
pub open spec fn spec_display(arch: Architecture) -> Seq<char> {
    match arch {
        Architecture::X64 => seq!['A', 'M', 'D', '6', '4'],
        Architecture::X32 => seq!['I', '3', '8', '6'],
    }
}

impl Architecture {
    /// The architecture of a machine field. Other machines are not handled.
    pub fn try_from(value: u16) -> (r: Result<Architecture, &'static str>)
        requires
            is_known_machine(value),
        ensures
            r == Ok::<Architecture, &'static str>(spec_architecture(value)),
    {
        if value == MACHINE_AMD64 {
            Ok(Architecture::X64)
        } else {
            Ok(Architecture::X32)
        }
    }

    /// The name of the architecture: "AMD64" or "I386".
    pub fn to_string(&self) -> (r: String)
        ensures
            r@ == spec_display(*self),
    {
        match self {
            Architecture::X64 => {
                let s = "AMD64";
                proof {
                    reveal_strlit("AMD64");
                }
                let r = s.to_owned();
                assert(r@ =~= spec_display(*self));
                r
            },
            Architecture::X32 => {
                let s = "I386";
                proof {
                    reveal_strlit("I386");
                }
                let r = s.to_owned();
                assert(r@ =~= spec_display(*self));
                r
            },
        }
    }
}

} // verus!
