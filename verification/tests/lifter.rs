use bias_core::ir::{
    Address, AddressSpace, AddressSpaceId, AddressValue, SpaceManager, Var, VarView,
};
use bias_core::lifter::convention::{
    CallFixup, Convention, Prototype, PrototypeEntry, PrototypeOperand, ReturnAddress, VarnodeData,
};
use bias_core::lifter::{
    Endian, FloatKind, Lifter, LifterBuilderError, Operand, Translator, TranslatorExt,
};
use std::sync::Arc;
use ustr::Ustr;

const RAM: AddressSpaceId = AddressSpaceId { bits: 0x4000_0001 };
const REGISTERS: AddressSpaceId = AddressSpaceId { bits: 0x2000_0002 };
const UNIQUE: AddressSpaceId = AddressSpaceId { bits: 0x1000_0003 };

fn space(id: AddressSpaceId, name: &str, address_size: usize, word_size: usize) -> Arc<AddressSpace> {
    Arc::new(AddressSpace { id, name: name.to_string(), address_size, word_size })
}

fn varnode(offset: u64, size: usize) -> VarnodeData {
    VarnodeData { space: REGISTERS, offset, size }
}

fn register(name: &str, offset: u64) -> PrototypeOperand {
    PrototypeOperand::Register { name: Ustr::from(name), varnode: varnode(offset, 8) }
}

fn entry(meta: Option<&str>, operand: PrototypeOperand) -> PrototypeEntry {
    PrototypeEntry {
        min_size: 1,
        max_size: 8,
        alignment: 0,
        meta_type: meta.map(|meta| meta.to_string()),
        extension: None,
        operand,
    }
}

fn join() -> PrototypeOperand {
    PrototypeOperand::RegisterJoin {
        first_name: Ustr::from("RDX"),
        first_varnode: varnode(0x10, 8),
        second_name: Ustr::from("RAX"),
        second_varnode: varnode(0, 8),
    }
}

fn fixup(name: &str, targets: &[&str]) -> CallFixup {
    CallFixup {
        name: name.to_string(),
        shift: 0,
        targets: targets.iter().map(|target| Ustr::from(target)).collect(),
        pcode: String::new(),
    }
}

fn float(size: usize, bias: i32) -> FloatKind {
    FloatKind {
        size,
        sign_pos: 31,
        frac_pos: 0,
        frac_size: 23,
        exp_pos: 23,
        exp_max: 255,
        exp_size: 8,
        bias,
        j_bit_implied: true,
    }
}

fn convention(return_address: ReturnAddress) -> Arc<Convention> {
    Arc::new(Convention {
        name: "System V".to_string(),
        stack_pointer: varnode(0x20, 8),
        return_address,
        default_prototype: Prototype {
            name: "__stdcall".to_string(),
            extra_pop: 8,
            stack_shift: 8,
            inputs: Arc::new(vec![
                entry(Some("float"), register("XMM0", 0x1200)),
                entry(None, register("RDI", 0x38)),
                entry(Some("float"), register("XMM1", 0x1240)),
                entry(None, register("RSI", 0x30)),
                entry(None, PrototypeOperand::StackRelative(8)),
                entry(None, join()),
            ]),
            outputs: Arc::new(vec![
                entry(Some("float"), register("XMM0", 0x1200)),
                entry(None, register("RAX", 0)),
                entry(None, join()),
                entry(None, PrototypeOperand::StackRelative(u64::MAX)),
            ]),
            unaffected: Arc::new(vec![register("RBX", 0x18), join(), register("RBP", 0x28)]),
            killed_by_call: Arc::new(vec![register("RAX", 0)]),
            likely_trashed: Arc::new(vec![PrototypeOperand::StackRelative(0)]),
        },
        additional_prototypes: vec![],
        call_fixups: vec![
            fixup("first", &["alloca", "chkstk"]),
            fixup("second", &["chkstk"]),
            fixup("third", &[]),
        ],
    })
}

fn translator(pc_size: usize, address_size: usize) -> Arc<Translator> {
    Arc::new(Translator {
        big_endian: false,
        program_counter: varnode(0x288, pc_size),
        manager: SpaceManager {
            spaces: vec![
                space(AddressSpaceId { bits: 0x8000_0000 }, "const", 8, 1),
                space(RAM, "ram", address_size, 1),
                space(REGISTERS, "register", 4, 1),
                space(UNIQUE, "unique", 4, 1),
            ],
            default_space: 1,
            register_space: 2,
            unique_space: 3,
        },
        registers: vec![
            (Ustr::from("RAX"), varnode(0, 8)),
            (Ustr::from("EAX"), varnode(0, 4)),
        ],
        float_formats: vec![(32, float(4, 127)), (64, float(8, 1023)), (32, float(4, 126))],
        compiler_conventions: vec![
            ("gcc".to_string(), convention(ReturnAddress::StackRelative { offset: 0, size: 8 })),
            (
                "windows".to_string(),
                convention(ReturnAddress::Register {
                    name: Ustr::from("LR"),
                    varnode: varnode(0x50, 4),
                }),
            ),
        ],
    })
}

fn lifter() -> Lifter {
    Lifter::for_convention(translator(8, 8), "gcc", None).unwrap()
}

fn var(offset: u64, bits: u32) -> Var {
    Var::new(REGISTERS, offset, bits, 0)
}

fn memory(offset: u64, bits: u32) -> Var {
    Var::new0(RAM, offset, bits)
}

fn base(offset: u64) -> Address {
    Address { offset }
}

#[test]
fn a_lifter_reads_its_translator() {
    let frame = var(0x28, 64);
    let lifter = Lifter::new_with(
        translator(8, 8),
        convention(ReturnAddress::StackRelative { offset: 0, size: 8 }),
        Some(frame),
    );
    assert_eq!(lifter.program_counter(), var(0x288, 64));
    assert_eq!(lifter.stack_pointer(), var(0x20, 64));
    assert_eq!(lifter.frame_pointer(), Some(frame));
    assert_eq!((lifter.address_bits(), lifter.address_bytes()), (64, 8));
    assert_eq!(lifter.endian(), Endian::Little);
    assert_eq!(lifter.global_space_id(), RAM);
    assert_eq!(lifter.register_space_id(), REGISTERS);
    assert_eq!(lifter.temporary_space_id(), UNIQUE);
    assert_eq!(lifter.global_space().name, "ram");
    assert_eq!(lifter.register_space().name, "register");
    assert_eq!(lifter.temporary_space().name, "unique");
    assert_eq!(**lifter.register_map(), VarView { space: REGISTERS });
    assert_eq!(lifter.convention().name, "System V");
    assert_eq!(lifter.translator().registers.len(), 2);
    assert_eq!(lifter.translator_ref().program_counter, varnode(0x288, 8));
    let plain = Lifter::new(
        translator(4, 4),
        convention(ReturnAddress::StackRelative { offset: 0, size: 8 }),
    );
    assert_eq!(plain.frame_pointer(), None);
    assert_eq!(plain.address_bytes(), 4);
}

#[test]
fn the_translator_can_be_changed() {
    let mut lifter = lifter();
    let shared = lifter.translator_ref();
    lifter.translator_mut().big_endian = true;
    assert_eq!(lifter.endian(), Endian::Big);
    assert!(!shared.big_endian);
    assert_eq!(lifter.register_var("EAX"), Some(var(0, 32)));
    assert_eq!(lifter.translator().convention_by_name("windows").unwrap().name, "System V");
    assert_eq!(lifter.translator().float_formats, shared.float_formats);
    lifter.translator_mut().manager.spaces[1] = space(RAM, "ram", 4, 1);
    assert_eq!(lifter.address_bits(), 64);
    assert_eq!(lifter.global_space().address_size, 4);
    assert_eq!(shared.manager.spaces[1].address_size, 8);
}

#[test]
fn each_listed_name_is_found() {
    let translator = translator(8, 8);
    for (name, register) in &translator.registers {
        assert_eq!(translator.register_by_name(name.as_str()), Some(*register));
    }
    for (name, convention) in &translator.compiler_conventions {
        assert!(Arc::ptr_eq(&translator.convention_by_name(name).unwrap(), convention));
    }
}

#[test]
fn conventions_are_found_by_name() {
    assert_eq!(lifter().convention().call_fixups.len(), 3);
    let lifter = Lifter::for_convention(translator(8, 8), "windows", None).unwrap();
    let resolver = lifter.prototype_resolver();
    assert_eq!(resolver.resolve_return(base(0)), var(0x50, 32));
    assert!(matches!(
        Lifter::for_convention(translator(8, 8), "clang", None),
        Err(LifterBuilderError::UnsupportedConv)
    ));
}

#[test]
fn registers_are_found_by_name() {
    let lifter = lifter();
    assert_eq!(lifter.register_var("EAX"), Some(var(0, 32)));
    assert_eq!(lifter.register_var("RAX"), Some(var(0, 64)));
    assert_eq!(lifter.register_var("R99"), None);
    assert_eq!(lifter.translator().register_var("EAX"), Some(var(0, 32)));
}

#[test]
fn the_last_float_format_of_a_size_stays() {
    let lifter = lifter();
    assert_eq!(lifter.float_kind(32), Some(&float(4, 126)));
    assert_eq!(lifter.float_kind(64), Some(&float(8, 1023)));
    assert_eq!(lifter.float_kind(80), None);
    assert_eq!(lifter.float_kinds().len(), 2);
}

#[test]
fn the_last_fixup_of_a_function_is_taken() {
    let lifter = lifter();
    assert_eq!(lifter.call_fixup_for("alloca").unwrap().name, "first");
    assert_eq!(lifter.call_fixup_for("chkstk").unwrap().name, "second");
    assert!(lifter.call_fixup_for("never interned either").is_none());
    assert!(lifter.call_fixup_for("RAX").is_none());
}

#[test]
fn addresses_are_counted_round_the_space() {
    let value = |lifter: &Lifter, offset: u64| lifter.address_value(base(offset));
    let wide = lifter();
    assert_eq!(
        value(&wide, u64::MAX),
        AddressValue { space: RAM, word_size: 1, highest: u64::MAX, offset: u64::MAX }
    );
    let narrow = Lifter::for_convention(translator(4, 4), "gcc", None).unwrap();
    assert_eq!(
        value(&narrow, 0x1_0000_0004),
        AddressValue { space: RAM, word_size: 1, highest: 0xffff_ffff, offset: 4 }
    );
    assert_eq!(value(&narrow, u64::MAX).offset, 0xffff_ffff);
    assert_eq!(value(&narrow, 0xffff_ffff).offset, 0xffff_ffff);
}

#[test]
fn words_make_a_space_larger() {
    let words = AddressSpace { id: RAM, name: "code".to_string(), address_size: 2, word_size: 3 };
    let value = words.address(0x3_0001);
    assert_eq!((value.offset, value.highest, value.word_size), (1, 0x2_ffff, 3));
    assert_eq!(words.address(u64::MAX).offset, 0x2_ffff);
    let empty = AddressSpace { id: RAM, name: "one".to_string(), address_size: 0, word_size: 1 };
    assert_eq!((empty.address(77).offset, empty.address(0).highest), (0, 0));
}

#[test]
fn spaces_are_found_by_their_low_bits() {
    let translator = translator(8, 8);
    let id = AddressSpaceId { bits: 0xffff_0002 };
    assert_eq!(translator.manager.space_by_id(id).name, "register");
}

#[test]
fn inputs_are_counted_by_kind() {
    let prototype = lifter().default_prototype();
    let float = || Some("float".to_string());
    assert_eq!(prototype.input_operand(0), Some(Operand::Register(var(0x38, 64))));
    assert_eq!(prototype.input_operand(1), Some(Operand::Register(var(0x30, 64))));
    assert_eq!(prototype.input_operand(2), Some(Operand::Stack(8, 8)));
    assert_eq!(prototype.input_operand(3), None);
    assert_eq!(prototype.input_operand(4), None);
    assert_eq!(
        prototype.input_operand_with(1, float()),
        Some(Operand::Register(var(0x1240, 64)))
    );
    assert_eq!(prototype.input_operand_with(2, float()), None);
    assert!(matches!(prototype.input(2), Some(PrototypeOperand::StackRelative(8))));
    assert!(matches!(prototype.input(3), Some(PrototypeOperand::RegisterJoin { .. })));
    assert!(prototype.input_with(0, Some("other".to_string())).is_none());
    assert_eq!(prototype.resolved_input(2, base(0x1000)), Some(memory(0x1008, 64)));
    assert_eq!(prototype.resolved_input(3, base(0x1000)), None);
    assert_eq!(
        prototype.resolved_input_with(0, float(), base(0)),
        Some(var(0x1200, 64))
    );
}

#[test]
fn outputs_are_counted_by_kind() {
    let prototype = lifter().default_prototype();
    let float = || Some("float".to_string());
    assert_eq!(prototype.output_operand(0), Some(Operand::Register(var(0, 64))));
    assert_eq!(prototype.output_operand(1), None);
    assert_eq!(prototype.output_operand(2), Some(Operand::Stack(-1, 8)));
    assert_eq!(
        prototype.output_operand_with(0, float()),
        Some(Operand::Register(var(0x1200, 64)))
    );
    assert!(matches!(prototype.output(1), Some(PrototypeOperand::RegisterJoin { .. })));
    assert!(prototype.output_with(1, float()).is_none());
    assert_eq!(prototype.resolved_output(2, base(0x1000)), Some(memory(0xfff, 64)));
    assert_eq!(
        prototype.resolved_output_with(0, float(), base(0)),
        Some(var(0x1200, 64))
    );
}

#[test]
fn registers_are_listed() {
    let prototype = lifter().default_prototype();
    assert_eq!(prototype.output_registers(), vec![var(0x1200, 64), var(0, 64)]);
    assert_eq!(prototype.unaffected_registers(), vec![var(0x18, 64), var(0x28, 64)]);
    assert_eq!(prototype.killed_registers(), vec![var(0, 64)]);
    assert_eq!(prototype.likely_killed_registers(), vec![]);
    assert_eq!(prototype.extra_pop(), 8);
    assert_eq!((prototype.address_bits(), prototype.address_bytes()), (64, 8));
    assert_eq!(prototype.resolver().address_bits(), 64);
    assert_eq!(prototype.into_resolver().address_bytes(), 8);
}

#[test]
fn lifter_and_resolver_agree() {
    let lifter = lifter();
    let resolver = lifter.prototype_resolver();
    for operand in [register("RDI", 0x38), join(), PrototypeOperand::StackRelative(16)] {
        assert_eq!(
            lifter.prototype_var(&operand, base(4)),
            resolver.resolve(&operand, base(4))
        );
        assert_eq!(
            lifter.prototype_register_var(&operand),
            resolver.resolve_register(&operand)
        );
    }
    assert_eq!(resolver.resolve_return(base(0x20)), memory(0x20, 64));
}

#[test]
fn stack_places_have_the_size_of_an_address() {
    let lifter = Lifter::for_convention(translator(8, 4), "gcc", None).unwrap();
    let place = PrototypeOperand::StackRelative(4);
    assert_eq!(lifter.prototype_var(&place, base(0)), Some(memory(4, 32)));
    assert_eq!(
        lifter.prototype_resolver().resolve(&place, base(0)),
        Some(memory(4, 64))
    );
}

#[test]
fn a_copy_lifts_the_same() {
    let lifter = lifter();
    let copy = lifter.clone();
    assert_eq!(copy.call_fixup_for("chkstk").unwrap().name, "second");
    assert_eq!(copy.float_kind(32), lifter.float_kind(32));
    assert_eq!(copy.program_counter(), lifter.program_counter());
    let prototype = lifter.default_prototype();
    assert_eq!(prototype.clone().killed_registers(), prototype.killed_registers());
}

#[test]
fn what_fits_can_be_tested_before() {
    let small = AddressSpace { id: RAM, name: "a".to_string(), address_size: 7, word_size: 200 };
    assert!(small.can_hold(0) && !small.can_hold(u64::MAX));
    let large = AddressSpace { id: RAM, name: "b".to_string(), address_size: 8, word_size: 2 };
    assert!(!large.can_hold(0));
    let none = AddressSpace { id: RAM, name: "c".to_string(), address_size: 4, word_size: 0 };
    assert!(!none.can_hold(0));
    let whole = AddressSpace { id: RAM, name: "d".to_string(), address_size: 9, word_size: 1 };
    assert!(whole.can_hold(u64::MAX));
    assert!(register("RAX", 0).is_sized() && join().is_sized());
    let wide = PrototypeOperand::Register {
        name: Ustr::from("wide"),
        varnode: varnode(0, 0x2000_0000),
    };
    assert!(!wide.is_sized());
    let good = translator(8, 8);
    let conv = good.convention_by_name("gcc").unwrap();
    assert!(Lifter::can_build(&good, &conv));
    assert!(!Lifter::can_build(&translator(0x2000_0000, 8), &conv));
    assert!(good.manager.knows(UNIQUE));
    assert!(!good.manager.knows(AddressSpaceId { bits: 4 }));
}
