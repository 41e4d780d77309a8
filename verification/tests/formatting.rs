use zydis_fmt::AddressFormat;
use zydis_fmt::DecodedInstruction;
use zydis_fmt::DisplacementFormat;
use zydis_fmt::FormatHook;
use zydis_fmt::FormatOperandHook;
use zydis_fmt::Formatter;
use zydis_fmt::Hook;
use zydis_fmt::HookKind;
use zydis_fmt::ImmediateFormat;
use zydis_fmt::NotifyHook;
use zydis_fmt::Operand;
use zydis_fmt::OutputBuffer;
use zydis_fmt::Status;
use zydis_fmt::Style;
use zydis_fmt::FLAG_FORCE_DISPLACEMENT;
use zydis_fmt::FLAG_UPPERCASE_HEX;

struct UppercaseMnemonic;

impl FormatHook for UppercaseMnemonic {
    fn run(&self, buffer: &mut OutputBuffer, instruction: &DecodedInstruction) -> Status {
        buffer.append(&instruction.mnemonic.to_ascii_uppercase())
    }
}

struct WriteText(&'static str);

impl FormatHook for WriteText {
    fn run(&self, buffer: &mut OutputBuffer, _instruction: &DecodedInstruction) -> Status {
        buffer.append(self.0)
    }
}

struct FailingPre;

impl NotifyHook for FailingPre {
    fn run(&self, _instruction: &DecodedInstruction) -> Status {
        Status::OperationFailed
    }
}

struct SegmentText(&'static str);

impl FormatOperandHook for SegmentText {
    fn run(
        &self,
        buffer: &mut OutputBuffer,
        _instruction: &DecodedInstruction,
        _operand_index: usize,
    ) -> Status {
        buffer.append(self.0)
    }
}

fn instr(mnemonic: &str, operands: Vec<Operand>) -> DecodedInstruction {
    DecodedInstruction { mnemonic: String::from(mnemonic), operands }
}

fn intel() -> Formatter {
    Formatter::new(Style::Intel).unwrap()
}

#[test]
fn intel_breakpoint_renders_exactly() {
    let mut f = intel();
    let mut i = instr("int3", vec![]);
    assert_eq!(f.format_instruction(&mut i).unwrap(), "int3");
}

#[test]
fn uppercase_mnemonic_hook_changes_output() {
    let mut f = intel();
    f.install_hook(Hook::FuncPrintMnemonic(Some(Box::new(UppercaseMnemonic))))
        .unwrap();
    let mut i = instr("int3", vec![]);
    assert_eq!(f.format_instruction(&mut i).unwrap(), "INT3");
}

#[test]
fn install_hook_returns_default_marker_first() {
    let mut f = intel();
    let prev = f
        .install_hook(Hook::FuncPrintMnemonic(Some(Box::new(WriteText("one")))))
        .unwrap();
    match prev {
        Hook::FuncPrintMnemonic(None) => {}
        _ => panic!("first replacement must hand back the default marker"),
    }
}

#[test]
fn install_hook_returns_previously_installed_callback() {
    let mut f = intel();
    f.install_hook(Hook::FuncPrintMnemonic(Some(Box::new(WriteText("one")))))
        .unwrap();
    let prev = f
        .install_hook(Hook::FuncPrintMnemonic(Some(Box::new(WriteText("two")))))
        .unwrap();
    // The returned hook must be the first callback: invoking it writes "one".
    match prev {
        Hook::FuncPrintMnemonic(Some(cb)) => {
            let mut buf = OutputBuffer::new(50);
            let i = instr("nop", vec![]);
            assert_eq!(cb.run(&mut buf, &i), Status::Success);
            assert_eq!(buf.into_string(), "one");
        }
        _ => panic!("second replacement must hand back the first callback"),
    }
    let mut i = instr("nop", vec![]);
    assert_eq!(f.format_instruction(&mut i).unwrap(), "two");
}

#[test]
fn hook_round_trip_keeps_kind_for_every_default_variant() {
    let hooks = vec![
        Hook::FuncPre(None),
        Hook::FuncPost(None),
        Hook::FuncFormatInstruction(None),
        Hook::FuncPrintPrefixes(None),
        Hook::FuncPrintMnemonic(None),
        Hook::FuncFormatOperandReg(None),
        Hook::FuncFormatOperandMem(None),
        Hook::FuncFormatOperandPtr(None),
        Hook::FuncFormatOperandImm(None),
        Hook::FuncPrintOperandsize(None),
        Hook::FuncPrintSegment(None),
        Hook::FuncPrintDecorator(None),
        Hook::FuncPrintDisplacement(None),
        Hook::FuncPrintImmediate(None),
        Hook::FuncPrintAddress(None),
    ];
    let kinds = vec![
        HookKind::Pre,
        HookKind::Post,
        HookKind::FormatInstruction,
        HookKind::PrintPrefixes,
        HookKind::PrintMnemonic,
        HookKind::FormatOperandReg,
        HookKind::FormatOperandMem,
        HookKind::FormatOperandPtr,
        HookKind::FormatOperandImm,
        HookKind::PrintOperandsize,
        HookKind::PrintSegment,
        HookKind::PrintDecorator,
        HookKind::PrintDisplacement,
        HookKind::PrintImmediate,
        HookKind::PrintAddress,
    ];
    for (h, k) in hooks.into_iter().zip(kinds.into_iter()) {
        let id = h.to_id();
        assert_eq!(id, k);
        let back = Hook::from_raw(id, h.to_raw());
        assert_eq!(back.to_id(), k);
    }
}

#[test]
fn hook_round_trip_keeps_callback_value() {
    let h = Hook::FuncPrintMnemonic(Some(Box::new(WriteText("kept"))));
    let id = h.to_id();
    let back = Hook::from_raw(id, h.to_raw());
    match back {
        Hook::FuncPrintMnemonic(Some(cb)) => {
            let mut buf = OutputBuffer::new(50);
            let i = instr("nop", vec![]);
            assert_eq!(cb.run(&mut buf, &i), Status::Success);
            assert_eq!(buf.into_string(), "kept");
        }
        _ => panic!("round trip lost the callback"),
    }
}

#[test]
fn new_matches_new_ex_with_defaults() {
    let mut a = Formatter::new(Style::Intel).unwrap();
    let mut b = Formatter::new_ex(
        Style::Intel,
        0,
        AddressFormat::Default,
        DisplacementFormat::Default,
        ImmediateFormat::Default,
    )
    .unwrap();
    let mut i = instr("mov", vec![
        Operand::Register(String::from("rax")),
        Operand::Register(String::from("rbx")),
    ]);
    assert_eq!(
        a.format_instruction(&mut i).unwrap(),
        b.format_instruction(&mut i).unwrap()
    );
}

#[test]
fn unknown_flag_bits_are_rejected() {
    let r = Formatter::new_ex(
        Style::Intel,
        0xF0,
        AddressFormat::Default,
        DisplacementFormat::Default,
        ImmediateFormat::Default,
    );
    match r {
        Err(Status::InvalidParameter) => {}
        _ => panic!("unknown flag bits must be rejected"),
    }
    assert!(Formatter::new_ex(
        Style::Intel,
        FLAG_FORCE_DISPLACEMENT | FLAG_UPPERCASE_HEX,
        AddressFormat::Default,
        DisplacementFormat::Default,
        ImmediateFormat::Default,
    )
    .is_ok());
}

#[test]
fn formatting_twice_yields_identical_strings() {
    let mut f = intel();
    let mut i = instr("mov", vec![
        Operand::Register(String::from("rax")),
        Operand::Immediate(0xff),
    ]);
    let first = f.format_instruction(&mut i).unwrap();
    let second = f.format_instruction(&mut i).unwrap();
    assert_eq!(first, second);
}

#[test]
fn text_at_capacity_boundary() {
    let mut f = intel();
    // 199 characters plus the terminator slot exactly fill the 200 slots.
    let mut fits = instr(&"a".repeat(199), vec![]);
    assert_eq!(f.format_instruction(&mut fits).unwrap().len(), 199);
    let mut too_long = instr(&"a".repeat(200), vec![]);
    match f.format_instruction(&mut too_long) {
        Err(Status::InsufficientBufferSize) => {}
        _ => panic!("an overlong rendering must fail, never be truncated"),
    }
}

#[test]
fn register_operands_intel() {
    let mut f = intel();
    let mut i = instr("mov", vec![
        Operand::Register(String::from("rax")),
        Operand::Register(String::from("rbx")),
    ]);
    assert_eq!(f.format_instruction(&mut i).unwrap(), "mov rax, rbx");
}

#[test]
fn att_style_reverses_operands_and_prefixes_registers() {
    let mut f = Formatter::new(Style::Att).unwrap();
    let mut i = instr("mov", vec![
        Operand::Register(String::from("rax")),
        Operand::Register(String::from("rbx")),
    ]);
    assert_eq!(f.format_instruction(&mut i).unwrap(), "mov %rbx, %rax");
}

#[test]
fn immediate_default_and_signed_formats() {
    let mut f = intel();
    let mut i = instr("push", vec![Operand::Immediate(0xff)]);
    assert_eq!(f.format_instruction(&mut i).unwrap(), "push 0xff");
    let mut signed = Formatter::new_ex(
        Style::Intel,
        0,
        AddressFormat::Default,
        DisplacementFormat::Default,
        ImmediateFormat::HexSigned,
    )
    .unwrap();
    let mut neg = instr("push", vec![Operand::Immediate(u64::MAX)]);
    assert_eq!(signed.format_instruction(&mut neg).unwrap(), "push -0x1");
}

#[test]
fn att_immediate_gets_dollar_prefix() {
    let mut f = Formatter::new(Style::Att).unwrap();
    let mut i = instr("push", vec![Operand::Immediate(0xff)]);
    assert_eq!(f.format_instruction(&mut i).unwrap(), "push $0xff");
}

#[test]
fn memory_displacement_forms() {
    let mut f = intel();
    let mut pos = instr("mov", vec![Operand::Memory {
        base: String::from("rbp"),
        displacement: 8,
    }]);
    assert_eq!(f.format_instruction(&mut pos).unwrap(), "mov [rbp+0x8]");
    let mut zero = instr("mov", vec![Operand::Memory {
        base: String::from("rbp"),
        displacement: 0,
    }]);
    assert_eq!(f.format_instruction(&mut zero).unwrap(), "mov [rbp]");
    let mut neg = instr("mov", vec![Operand::Memory {
        base: String::from("rbp"),
        displacement: 8u64.wrapping_neg(),
    }]);
    assert_eq!(f.format_instruction(&mut neg).unwrap(), "mov [rbp-0x8]");
}

#[test]
fn forced_zero_displacement_is_printed() {
    let mut f = Formatter::new_ex(
        Style::Intel,
        FLAG_FORCE_DISPLACEMENT,
        AddressFormat::Default,
        DisplacementFormat::Default,
        ImmediateFormat::Default,
    )
    .unwrap();
    let mut i = instr("mov", vec![Operand::Memory {
        base: String::from("rbp"),
        displacement: 0,
    }]);
    assert_eq!(f.format_instruction(&mut i).unwrap(), "mov [rbp+0x0]");
}

#[test]
fn unsigned_displacement_format_prints_raw_offset() {
    let mut f = Formatter::new_ex(
        Style::Intel,
        0,
        AddressFormat::Default,
        DisplacementFormat::HexUnsigned,
        ImmediateFormat::Default,
    )
    .unwrap();
    let mut i = instr("mov", vec![Operand::Memory {
        base: String::from("rbp"),
        displacement: 8u64.wrapping_neg(),
    }]);
    assert_eq!(
        f.format_instruction(&mut i).unwrap(),
        "mov [rbp+0xfffffffffffffff8]"
    );
}

#[test]
fn att_memory_operand() {
    let mut f = Formatter::new(Style::Att).unwrap();
    let mut i = instr("mov", vec![Operand::Memory {
        base: String::from("rax"),
        displacement: 8,
    }]);
    assert_eq!(f.format_instruction(&mut i).unwrap(), "mov 0x8(%rax)");
}

#[test]
fn pointer_operand_pads_offset_address() {
    let mut f = intel();
    let mut i = instr("call", vec![Operand::Pointer {
        segment: 0x10,
        offset: 0x1234,
    }]);
    assert_eq!(
        f.format_instruction(&mut i).unwrap(),
        "call 0x10:0x0000000000001234"
    );
}

#[test]
fn uppercase_hex_flag_changes_digits() {
    let mut f = Formatter::new_ex(
        Style::Intel,
        FLAG_UPPERCASE_HEX,
        AddressFormat::Default,
        DisplacementFormat::Default,
        ImmediateFormat::Default,
    )
    .unwrap();
    let mut i = instr("push", vec![Operand::Immediate(0xff)]);
    assert_eq!(f.format_instruction(&mut i).unwrap(), "push 0xFF");
}

#[test]
fn failing_pre_hook_status_is_propagated() {
    let mut f = intel();
    f.install_hook(Hook::FuncPre(Some(Box::new(FailingPre)))).unwrap();
    let mut i = instr("int3", vec![]);
    match f.format_instruction(&mut i) {
        Err(Status::OperationFailed) => {}
        _ => panic!("a failing hook status must be handed back unchanged"),
    }
}

#[test]
fn segment_hook_writes_inside_memory_operand() {
    let mut f = intel();
    f.install_hook(Hook::FuncPrintSegment(Some(Box::new(SegmentText("ds:")))))
        .unwrap();
    let mut i = instr("mov", vec![Operand::Memory {
        base: String::from("rbp"),
        displacement: 8,
    }]);
    assert_eq!(f.format_instruction(&mut i).unwrap(), "mov [ds:rbp+0x8]");
}

#[test]
fn whole_instruction_hook_replaces_default_body() {
    let mut f = intel();
    f.install_hook(Hook::FuncFormatInstruction(Some(Box::new(WriteText(
        "custom",
    )))))
    .unwrap();
    let mut i = instr("int3", vec![]);
    assert_eq!(f.format_instruction(&mut i).unwrap(), "custom");
}

#[test]
fn output_buffer_rejects_overflow_and_keeps_contents() {
    let mut buf = OutputBuffer::new(5);
    assert_eq!(buf.append("abcd"), Status::Success);
    assert_eq!(buf.append("e"), Status::InsufficientBufferSize);
    assert_eq!(buf.len(), 4);
    assert_eq!(buf.capacity(), 5);
    assert_eq!(buf.into_string(), "abcd");
}

#[test]
fn all_operand_kinds_in_one_instruction() {
    let mut f = intel();
    let mut i = instr("test", vec![
        Operand::Register(String::from("rax")),
        Operand::Immediate(0x2a),
        Operand::Memory { base: String::from("rbp"), displacement: 0x10 },
        Operand::Pointer { segment: 0x1, offset: 0x2 },
    ]);
    assert_eq!(
        f.format_instruction(&mut i).unwrap(),
        "test rax, 0x2a, [rbp+0x10], 0x1:0x0000000000000002"
    );
}

#[test]
fn formatting_twice_with_installed_hook_is_stable() {
    let mut f = intel();
    f.install_hook(Hook::FuncPrintMnemonic(Some(Box::new(UppercaseMnemonic))))
        .unwrap();
    let mut i = instr("nop", vec![Operand::Register(String::from("rax"))]);
    let first = f.format_instruction(&mut i).unwrap();
    let second = f.format_instruction(&mut i).unwrap();
    assert_eq!(first, "NOP rax");
    assert_eq!(first, second);
}
