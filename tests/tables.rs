use linux_errno::arch::{alpha, generic, mips, parisc, powerpc, sparc};
use linux_errno::table::{code_in, name_in, same_text, Entry};
use linux_errno::{Arch, Error};

const ALL: [Arch; 10] = [
    Arch::Alpha,
    Arch::Arm,
    Arch::M68k,
    Arch::Mips,
    Arch::Parisc,
    Arch::PowerPc,
    Arch::RiscV,
    Arch::S390x,
    Arch::Sparc,
    Arch::X86,
];

fn listing(arch: Arch) -> Vec<Entry> {
    match arch {
        Arch::Alpha => alpha::TABLE.to_vec(),
        Arch::Mips => mips::TABLE.to_vec(),
        Arch::Parisc => parisc::TABLE.to_vec(),
        Arch::PowerPc => {
            let mut t = powerpc::TABLE.to_vec();
            t.extend_from_slice(&generic::TABLE);
            t
        }
        Arch::S390x | Arch::Sparc => sparc::TABLE.to_vec(),
        _ => generic::TABLE.to_vec(),
    }
}

fn err(v: u16) -> Error {
    Error::new(v).unwrap()
}

#[test]
fn every_declared_constant_names_its_first_declaration() {
    for arch in ALL {
        let t = listing(arch);
        for (i, (name, code)) in t.iter().enumerate() {
            let first = t.iter().position(|(_, c)| c == code).unwrap();
            let got = arch.name_for(err(*code));
            assert_eq!(got, Some(t[first].0), "{:?} {}", arch, name);
            if first == i {
                assert_eq!(got, Some(*name));
            }
            assert_eq!(arch.code_named(name), Some(t.iter().find(|(n, _)| n == name).unwrap().1));
        }
    }
}

#[test]
fn alias_resolves_to_earlier_name() {
    assert_eq!(generic::EWOULDBLOCK, generic::EAGAIN);
    assert_eq!(Arch::X86.name_for(err(generic::EWOULDBLOCK)), Some("EAGAIN"));
    assert_eq!(Arch::X86.name_for(err(generic::EAGAIN)), Some("EAGAIN"));
    assert_eq!(Arch::Arm.name_for(err(generic::EDEADLOCK)), Some("EDEADLK"));
    assert_eq!(Arch::Alpha.name_for(err(alpha::EWOULDBLOCK)), Some("EAGAIN"));
    assert_eq!(Arch::Alpha.name_for(err(alpha::EDEADLOCK)), Some("EDEADLK"));
    assert_eq!(Arch::Parisc.name_for(err(parisc::ECANCELED)), Some("ECANCELLED"));
    assert_eq!(Arch::Parisc.name_for(err(parisc::EREFUSED)), Some("ECONNREFUSED"));
    assert_eq!(Arch::Mips.name_for(err(mips::EDEADLOCK)), Some("EDEADLOCK"));
    assert_eq!(Arch::Sparc.name_for(err(sparc::EWOULDBLOCK)), Some("EAGAIN"));
}

#[test]
fn powerpc_renumbers_edeadlock() {
    assert_eq!(powerpc::EDEADLOCK, 58);
    assert_eq!(Arch::PowerPc.name_for(err(58)), Some("EDEADLOCK"));
    assert_eq!(Arch::X86.name_for(err(58)), None);
    assert_eq!(Arch::PowerPc.name_for(err(35)), Some("EDEADLK"));
    assert_eq!(Arch::PowerPc.code_named("EDEADLOCK"), Some(58));
    assert_eq!(Arch::X86.code_named("EDEADLOCK"), Some(35));
    assert_eq!(Arch::PowerPc.code_named("ENOMEM"), Some(12));
}

#[test]
fn unknown_numbers_have_no_name() {
    for arch in ALL {
        assert_eq!(arch.name_for(err(4095)), None);
        assert_eq!(arch.name_for(err(1000)), None);
        assert_eq!(arch.code_named("ENOTSUP"), None);
        assert_eq!(arch.code_named(""), None);
        assert!(arch.error_named("EBOGUS").is_none());
    }
    assert_eq!(Arch::X86.name_for(err(41)), None);
    assert_eq!(Arch::Mips.name_for(err(1133)), Some("EDQUOT"));
}

#[test]
fn same_name_differs_between_architectures() {
    assert_eq!(generic::EAGAIN, 11);
    assert_eq!(alpha::EAGAIN, 35);
    assert_eq!(mips::EAGAIN, 11);
    assert_eq!(parisc::EAGAIN, 11);
    assert_eq!(sparc::EAGAIN, 11);
    assert_ne!(generic::EAGAIN, alpha::EAGAIN);
    assert_eq!(generic::EDEADLK, 35);
    assert_eq!(alpha::EDEADLK, 11);
    assert_eq!(mips::EDEADLK, 45);
    assert_eq!(parisc::EDEADLK, 45);
    assert_eq!(sparc::EDEADLK, 78);
    assert_eq!(Arch::X86.name_for(err(11)), Some("EAGAIN"));
    assert_eq!(Arch::Alpha.name_for(err(11)), Some("EDEADLK"));
    assert_eq!(Arch::Alpha.name_for(err(35)), Some("EAGAIN"));
    assert_eq!(Arch::X86.name_for(err(35)), Some("EDEADLK"));
    assert_eq!(generic::ETIMEDOUT, 110);
    assert_eq!(alpha::ETIMEDOUT, 60);
    assert_eq!(mips::ETIMEDOUT, 145);
    assert_eq!(parisc::ETIMEDOUT, 238);
    assert_eq!(sparc::ETIMEDOUT, 60);
    assert_eq!(mips::EDQUOT, 1133);
    assert_eq!(sparc::EPROCLIM, 67);
    let names = ["EAGAIN", "EDEADLK", "ETIMEDOUT", "EOPNOTSUPP", "EDQUOT", "ECANCELED"];
    let arches = [Arch::X86, Arch::Alpha, Arch::Mips, Arch::Parisc, Arch::Sparc];
    for (i, a) in arches.iter().enumerate() {
        for b in &arches[i + 1..] {
            let differs = names.iter().any(|n| a.code_named(n) != b.code_named(n));
            assert!(differs, "{:?} and {:?} agree", a, b);
        }
    }
}

#[test]
fn error_named_gives_constant() {
    assert_eq!(Arch::X86.error_named("ENOMEM"), Some(err(12)));
    assert_eq!(Arch::Alpha.error_named("EAGAIN"), Some(err(35)));
    assert_eq!(Arch::Mips.error_named("EDQUOT"), Some(err(1133)));
    assert_eq!(Arch::X86.error_named("enomem"), None);
}

#[test]
fn every_listing_number_is_an_errno() {
    for arch in ALL {
        for (_, code) in listing(arch) {
            assert!(Error::new(code).is_some());
        }
    }
}

#[test]
fn target_names_select_architecture() {
    assert_eq!(Arch::from_target_arch("x86_64"), Some(Arch::X86));
    assert_eq!(Arch::from_target_arch("x86"), Some(Arch::X86));
    assert_eq!(Arch::from_target_arch("aarch64"), Some(Arch::Arm));
    assert_eq!(Arch::from_target_arch("arm"), Some(Arch::Arm));
    assert_eq!(Arch::from_target_arch("alpha"), Some(Arch::Alpha));
    assert_eq!(Arch::from_target_arch("m68k"), Some(Arch::M68k));
    assert_eq!(Arch::from_target_arch("mips64"), Some(Arch::Mips));
    assert_eq!(Arch::from_target_arch("parisc"), Some(Arch::Parisc));
    assert_eq!(Arch::from_target_arch("powerpc64"), Some(Arch::PowerPc));
    assert_eq!(Arch::from_target_arch("riscv64"), Some(Arch::RiscV));
    assert_eq!(Arch::from_target_arch("s390x"), Some(Arch::S390x));
    assert_eq!(Arch::from_target_arch("sparc64"), Some(Arch::Sparc));
    assert_eq!(Arch::from_target_arch("wasm32"), None);
    assert_eq!(Arch::from_target_arch(""), None);
    assert_eq!(Arch::from_target_arch("x86_"), None);
    assert_eq!(Arch::from_target_arch("X86_64"), None);
}

#[test]
fn describe_uses_name_or_number() {
    assert_eq!(err(12).describe(Arch::X86), "ENOMEM");
    assert_eq!(err(11).describe(Arch::X86), "EAGAIN");
    assert_eq!(err(11).describe(Arch::Alpha), "EDEADLK");
    assert_eq!(err(4000).describe(Arch::X86), "Error(4000)");
    assert_eq!(err(7).describe(Arch::Mips), "E2BIG");
    assert_eq!(err(41).describe(Arch::X86), "Error(41)");
    assert_eq!(err(4095).describe(Arch::Sparc), "Error(4095)");
}

#[test]
fn lookups_on_small_listings() {
    let t: [Entry; 3] = [("EAGAIN", 11), ("EWOULDBLOCK", 11), ("ENOMEM", 12)];
    assert_eq!(name_in(&t, 11), Some("EAGAIN"));
    assert_eq!(name_in(&t, 12), Some("ENOMEM"));
    assert_eq!(name_in(&t, 13), None);
    assert_eq!(name_in(&[], 11), None);
    assert_eq!(code_in(&t, "EWOULDBLOCK"), Some(11));
    assert_eq!(code_in(&t, "ENOMEM"), Some(12));
    assert_eq!(code_in(&t, "ENOMEMX"), None);
    assert!(same_text("EAGAIN", "EAGAIN"));
    assert!(!same_text("EAGAIN", "EAGAIM"));
    assert!(!same_text("EAGAIN", "EAGAI"));
    assert!(same_text("", ""));
    assert!(!same_text("é", "e"));
}

#[test]
fn generic_numbers_match_kernel() {
    assert_eq!(generic::EPERM, 1);
    assert_eq!(generic::ENOMEM, 12);
    assert_eq!(generic::ERANGE, 34);
    assert_eq!(generic::ENOSYS, 38);
    assert_eq!(generic::ELOOP, 40);
    assert_eq!(generic::ENOMSG, 42);
    assert_eq!(generic::EBFONT, 59);
    assert_eq!(generic::ECONNREFUSED, 111);
    assert_eq!(generic::EHWPOISON, 133);
    assert_eq!(generic::TABLE.len(), 133);
    assert_eq!(Arch::X86.name_for(err(generic::EHWPOISON)), Some("EHWPOISON"));
}
