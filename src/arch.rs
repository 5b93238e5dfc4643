//! Linux error numbers for specific target architectures.
//!
//! Each architecture numbers its errors in its own way. A listing module holds
//! the constants of one numbering and its `TABLE`, in the kernel's order of
//! declaration; `Arch` picks the listing that a target uses.
use vstd::prelude::*;
use crate::error::{Error, is_errno};
use crate::table::{Entry, first_code, first_name, code_in, name_in, same_text};

pub mod alpha;
pub mod generic;
pub mod mips;
pub mod parisc;
pub mod powerpc;
pub mod sparc;

verus! {

/// A target architecture whose error numbering is known.
#[derive(Clone, Copy, Debug, PartialEq, Eq, Structural, Hash)]
pub enum Arch {
    /// `alpha`
    Alpha,
    /// `arm` and `aarch64`
    Arm,
    /// `m68k`
    M68k,
    /// `mips` and `mips64`
    Mips,
    /// `parisc`
    Parisc,
    /// `powerpc` and `powerpc64`
    PowerPc,
    /// `riscv32` and `riscv64`
    RiscV,
    /// `s390x`
    S390x,
    /// `sparc` and `sparc64`
    Sparc,
    /// `x86` and `x86_64`
    X86,
}

/// The architecture that a target architecture name (as Rust spells it in
/// `target_arch`) stands for, if it is one this library knows.
pub open spec fn arch_of_target(name: Seq<char>) -> Option<Arch> {
    if name == "alpha"@ {
        Some(Arch::Alpha)
    } else if name == "arm"@ || name == "aarch64"@ {
        Some(Arch::Arm)
    } else if name == "m68k"@ {
        Some(Arch::M68k)
    } else if name == "mips"@ || name == "mips64"@ {
        Some(Arch::Mips)
    } else if name == "parisc"@ {
        Some(Arch::Parisc)
    } else if name == "powerpc"@ || name == "powerpc64"@ {
        Some(Arch::PowerPc)
    } else if name == "riscv32"@ || name == "riscv64"@ {
        Some(Arch::RiscV)
    } else if name == "s390x"@ {
        Some(Arch::S390x)
    } else if name == "sparc"@ || name == "sparc64"@ {
        Some(Arch::Sparc)
    } else if name == "x86"@ || name == "x86_64"@ {
        Some(Arch::X86)
    } else {
        None
    }
}

/// Every number of a listing is a Linux error number.
pub open spec fn all_errnos(t: Seq<Entry>) -> bool {
    forall|i: int| 0 <= i < t.len() ==> is_errno(#[trigger] t[i].1 as int)
}

impl Arch {
    /// The listing of this architecture, in order of lookup.
    pub open spec fn listing(self) -> Seq<Entry> {
        match self {
            Arch::Alpha => alpha::TABLE@,
            Arch::Mips => mips::TABLE@,
            Arch::Parisc => parisc::TABLE@,
            Arch::PowerPc => powerpc::TABLE@ + generic::TABLE@,
            Arch::S390x | Arch::Sparc => sparc::TABLE@,
            Arch::Arm | Arch::M68k | Arch::RiscV | Arch::X86 => generic::TABLE@,
        }
    }

    /// Select the architecture for a target architecture name, such as
    /// `"x86_64"`. An unknown name gives `None`: no numbering is assumed.
    pub fn from_target_arch(name: &str) -> (r: Option<Arch>)
        ensures
            r == arch_of_target(name@),
    {
        if same_text(name, "alpha") {
            Some(Arch::Alpha)
        } else if same_text(name, "arm") || same_text(name, "aarch64") {
            Some(Arch::Arm)
        } else if same_text(name, "m68k") {
            Some(Arch::M68k)
        } else if same_text(name, "mips") || same_text(name, "mips64") {
            Some(Arch::Mips)
        } else if same_text(name, "parisc") {
            Some(Arch::Parisc)
        } else if same_text(name, "powerpc") || same_text(name, "powerpc64") {
            Some(Arch::PowerPc)
        } else if same_text(name, "riscv32") || same_text(name, "riscv64") {
            Some(Arch::RiscV)
        } else if same_text(name, "s390x") {
            Some(Arch::S390x)
        } else if same_text(name, "sparc") || same_text(name, "sparc64") {
            Some(Arch::Sparc)
        } else if same_text(name, "x86") || same_text(name, "x86_64") {
            Some(Arch::X86)
        } else {
            None
        }
    }

    /// The symbolic name of `err` on this architecture: the name it was first
    /// declared under, or `None` if no name of the listing has its number.
    pub fn name_for(self, err: Error) -> (r: Option<&'static str>)
        ensures
            r == first_name(self.listing(), err.value()),
    {
        let v = err.get();
        match self {
            Arch::Alpha => name_in(&alpha::TABLE, v),
            Arch::Mips => name_in(&mips::TABLE, v),
            Arch::Parisc => name_in(&parisc::TABLE, v),
            Arch::PowerPc => {
                proof {
                    crate::table::lemma_first_name_concat(powerpc::TABLE@, generic::TABLE@, v);
                }
                match name_in(&powerpc::TABLE, v) {
                    Some(n) => Some(n),
                    None => name_in(&generic::TABLE, v),
                }
            },
            Arch::S390x | Arch::Sparc => name_in(&sparc::TABLE, v),
            Arch::Arm | Arch::M68k | Arch::RiscV | Arch::X86 => name_in(&generic::TABLE, v),
        }
    }

    /// The number of the constant named `name` on this architecture.
    pub fn code_named(self, name: &str) -> (r: Option<u16>)
        ensures
            r == first_code(self.listing(), name@),
    {
        match self {
            Arch::Alpha => code_in(&alpha::TABLE, name),
            Arch::Mips => code_in(&mips::TABLE, name),
            Arch::Parisc => code_in(&parisc::TABLE, name),
            Arch::PowerPc => {
                proof {
                    crate::table::lemma_first_code_concat(
                        powerpc::TABLE@,
                        generic::TABLE@,
                        name@,
                    );
                }
                match code_in(&powerpc::TABLE, name) {
                    Some(c) => Some(c),
                    None => code_in(&generic::TABLE, name),
                }
            },
            Arch::S390x | Arch::Sparc => code_in(&sparc::TABLE, name),
            Arch::Arm | Arch::M68k | Arch::RiscV | Arch::X86 => code_in(&generic::TABLE, name),
        }
    }

    /// The error named `name` on this architecture, if the listing has it.
    pub fn error_named(self, name: &str) -> (r: Option<Error>)
        ensures
            match first_code(self.listing(), name@) {
                Some(c) => r matches Some(e) && e.value() == c,
                None => r is None,
            },
    {
        proof {
            self.lemma_listing_errnos();
            lemma_first_code_in(self.listing(), name@);
        }
        match self.code_named(name) {
            Some(c) => Some(Error::new_unchecked(c)),
            None => None,
        }
    }

    /// Every constant of every listing is a Linux error number: the numbers
    /// written into the listings are checked once, here.
    pub proof fn lemma_listing_errnos(self)
        ensures
            all_errnos(self.listing()),
    {
        assert(all_errnos(alpha::TABLE@));
        assert(all_errnos(generic::TABLE@));
        assert(all_errnos(mips::TABLE@));
        assert(all_errnos(parisc::TABLE@));
        assert(all_errnos(powerpc::TABLE@));
        assert(all_errnos(sparc::TABLE@));
        assert(all_errnos(powerpc::TABLE@ + generic::TABLE@));
    }

    /// Reverse lookup of a declared constant, the `i`th of the listing: its
    /// own name, unless an earlier name holds the same number, and then the
    /// first name declared with that number.
    pub proof fn lemma_declared_name(self, i: int)
        requires
            0 <= i < self.listing().len(),
        ensures
            ({
                let t = self.listing();
                &&& (forall|k: int| 0 <= k < i ==> t[k].1 != t[i].1) ==> first_name(t, t[i].1)
                    == Some(t[i].0)
                &&& exists|j: int|
                    j <= i && #[trigger] crate::table::is_first_with_code(t, t[i].1, j)
                        && first_name(t, t[i].1) == Some(t[j].0)
            }),
    {
        crate::table::lemma_declared_name(self.listing(), i);
    }
}

impl Error {
    /// How this error reads in diagnostics on `arch`: its symbolic name if
    /// the listing has one, else `Error(<number>)`.
    pub fn describe(&self, arch: Arch) -> (r: String)
        ensures
            r@ == match first_name(arch.listing(), self.value()) {
                Some(n) => n@,
                None => "Error("@ + decimal(self.value() as nat) + ")"@,
            },
    {
        match arch.name_for(*self) {
            Some(n) => String::from_str(n),
            None => {
                let mut s = String::from_str("Error(");
                let digits = decimal_text(self.get());
                s.append(digits.as_str());
                s.append(")");
                s
            },
        }
    }
}

/// The decimal digits of `n`, most significant first, without leading zeros.
pub open spec fn decimal(n: nat) -> Seq<char>
    decreases n,
{
    if n < 10 {
        seq![digit(n)]
    } else {
        decimal(n / 10).push(digit(n % 10))
    }
}

/// The character of the decimal digit `d`.
pub open spec fn digit(d: nat) -> char {
    ('0' as nat + d) as char
}

/// Relies on the `Display` impl of `u16` (through `format!`), which writes
/// the number in decimal.
#[verifier::external_body]
fn decimal_text(n: u16) -> (r: String)
    ensures
        r@ == decimal(n as nat),
{
    format!("{}", n)
}

/// A number found by forward lookup is one of the listing's numbers.
proof fn lemma_first_code_in(t: Seq<Entry>, name: Seq<char>)
    requires
        all_errnos(t),
    ensures
        first_code(t, name) matches Some(c) ==> is_errno(c as int),
    decreases t.len(),
{
    if t.len() > 0 {
        lemma_first_code_in(t.drop_last(), name);
    }
}

} // verus!
