use vstd::prelude::*;
use vstd::string::StringExecFns;

use crate::buffer::OutputBuffer;
use crate::hooks::hook_raw_eq;
use crate::hooks::hooks_equivalent;
use crate::hooks::lemma_hook_round_trip;
use crate::hooks::lemma_hook_raw_matches;
use crate::hooks::raw_is_default;
use crate::hooks::raw_matches;
use crate::hooks::same_raw;
use crate::hooks::spec_to_id;
use crate::hooks::Hook;
use crate::hooks::HookKind;
use crate::hooks::RawHook;
use crate::instruction::DecodedInstruction;
use crate::instruction::Operand;
use crate::render::addr_text;
use crate::render::disp_text;
use crate::render::hex_string;
use crate::render::imm_body_text;
use crate::render::lemma_ops_prefix_mono;
use crate::render::reg_text;
use crate::render::spec_imm_text;
use crate::render::spec_mem_text;
use crate::render::spec_operand_text;
use crate::render::spec_ops_prefix;
use crate::render::spec_ptr_text;
use crate::render::spec_render;
use crate::render::upper_hex_exec;
use crate::render::AddressFormat;
use crate::render::DisplacementFormat;
use crate::render::FmtConfig;
use crate::render::ImmediateFormat;
use crate::render::Style;
use crate::render::VALID_FLAGS;
use crate::status::Status;

verus! {

/// The scratch capacity one rendering call works with, the terminator slot
/// included.
pub const SCRATCH_CAPACITY: usize = 200;

/// Whether a flag word holds only bits the engine knows.
pub open spec fn flags_valid(flags: u64) -> bool {
    flags & !VALID_FLAGS == 0
}

/// One rendering context: the configuration chosen at construction and the
/// hook table, one type-erased slot per extension point, every slot at the
/// engine default until `set_hook` overrides it.
pub struct Formatter {
    config: FmtConfig,
    slot_pre: RawHook,
    slot_post: RawHook,
    slot_format_instruction: RawHook,
    slot_print_prefixes: RawHook,
    slot_print_mnemonic: RawHook,
    slot_op_reg: RawHook,
    slot_op_mem: RawHook,
    slot_op_ptr: RawHook,
    slot_op_imm: RawHook,
    slot_operandsize: RawHook,
    slot_segment: RawHook,
    slot_decorator: RawHook,
    slot_displacement: RawHook,
    slot_immediate: RawHook,
    slot_address: RawHook,
}

impl Formatter {
    /// The configuration this formatter was built with.
    pub closed spec fn cfg(self) -> FmtConfig {
        self.config
    }

    /// The stored table value of one extension point.
    pub closed spec fn slot(self, kind: HookKind) -> RawHook {
        match kind {
            HookKind::Pre => self.slot_pre,
            HookKind::Post => self.slot_post,
            HookKind::FormatInstruction => self.slot_format_instruction,
            HookKind::PrintPrefixes => self.slot_print_prefixes,
            HookKind::PrintMnemonic => self.slot_print_mnemonic,
            HookKind::FormatOperandReg => self.slot_op_reg,
            HookKind::FormatOperandMem => self.slot_op_mem,
            HookKind::FormatOperandPtr => self.slot_op_ptr,
            HookKind::FormatOperandImm => self.slot_op_imm,
            HookKind::PrintOperandsize => self.slot_operandsize,
            HookKind::PrintSegment => self.slot_segment,
            HookKind::PrintDecorator => self.slot_decorator,
            HookKind::PrintDisplacement => self.slot_displacement,
            HookKind::PrintImmediate => self.slot_immediate,
            HookKind::PrintAddress => self.slot_address,
        }
    }

    /// Well-formedness of the table: every slot holds a value of exactly the
    /// signature class its extension point asks for, so reading a slot back
    /// as a typed hook is always possible.
    pub closed spec fn wf(self) -> bool {
        &&& raw_matches(HookKind::Pre, self.slot_pre)
        &&& raw_matches(HookKind::Post, self.slot_post)
        &&& raw_matches(HookKind::FormatInstruction, self.slot_format_instruction)
        &&& raw_matches(HookKind::PrintPrefixes, self.slot_print_prefixes)
        &&& raw_matches(HookKind::PrintMnemonic, self.slot_print_mnemonic)
        &&& raw_matches(HookKind::FormatOperandReg, self.slot_op_reg)
        &&& raw_matches(HookKind::FormatOperandMem, self.slot_op_mem)
        &&& raw_matches(HookKind::FormatOperandPtr, self.slot_op_ptr)
        &&& raw_matches(HookKind::FormatOperandImm, self.slot_op_imm)
        &&& raw_matches(HookKind::PrintOperandsize, self.slot_operandsize)
        &&& raw_matches(HookKind::PrintSegment, self.slot_segment)
        &&& raw_matches(HookKind::PrintDecorator, self.slot_decorator)
        &&& raw_matches(HookKind::PrintDisplacement, self.slot_displacement)
        &&& raw_matches(HookKind::PrintImmediate, self.slot_immediate)
        &&& raw_matches(HookKind::PrintAddress, self.slot_address)
    }

    /// Whether every slot still carries the engine default.
    pub closed spec fn all_default(self) -> bool {
        &&& raw_is_default(self.slot_pre)
        &&& raw_is_default(self.slot_post)
        &&& raw_is_default(self.slot_format_instruction)
        &&& raw_is_default(self.slot_print_prefixes)
        &&& raw_is_default(self.slot_print_mnemonic)
        &&& raw_is_default(self.slot_op_reg)
        &&& raw_is_default(self.slot_op_mem)
        &&& raw_is_default(self.slot_op_ptr)
        &&& raw_is_default(self.slot_op_imm)
        &&& raw_is_default(self.slot_operandsize)
        &&& raw_is_default(self.slot_segment)
        &&& raw_is_default(self.slot_decorator)
        &&& raw_is_default(self.slot_displacement)
        &&& raw_is_default(self.slot_immediate)
        &&& raw_is_default(self.slot_address)
    }

    /// Creates a formatter from a full configuration. Succeeds exactly when
    /// the flag word holds only known bits; on success the context is fully
    /// initialized with every hook slot at the engine default, and on
    /// failure no formatter exists at all.
    pub fn new_ex(
        style: Style,
        flags: u64,
        address_format: AddressFormat,
        displacement_format: DisplacementFormat,
        immediate_format: ImmediateFormat,
    ) -> (r: Result<Formatter, Status>)
        ensures
            r is Ok <==> flags_valid(flags),
            r matches Ok(f) ==> f.wf() && f.all_default() && f.cfg() == (FmtConfig {
                style,
                flags,
                address_format,
                displacement_format,
                immediate_format,
            }),
            r matches Err(e) ==> e == Status::InvalidParameter,
    {
        if flags & !VALID_FLAGS != 0 {
            Err(Status::InvalidParameter)
        } else {
            Ok(
                Formatter {
                    config: FmtConfig {
                        style,
                        flags,
                        address_format,
                        displacement_format,
                        immediate_format,
                    },
                    slot_pre: RawHook::Notify(None),
                    slot_post: RawHook::Notify(None),
                    slot_format_instruction: RawHook::Format(None),
                    slot_print_prefixes: RawHook::Format(None),
                    slot_print_mnemonic: RawHook::Format(None),
                    slot_op_reg: RawHook::FormatOperand(None),
                    slot_op_mem: RawHook::FormatOperand(None),
                    slot_op_ptr: RawHook::FormatOperand(None),
                    slot_op_imm: RawHook::FormatOperand(None),
                    slot_operandsize: RawHook::FormatOperand(None),
                    slot_segment: RawHook::FormatOperand(None),
                    slot_decorator: RawHook::FormatOperand(None),
                    slot_displacement: RawHook::FormatOperand(None),
                    slot_immediate: RawHook::FormatOperand(None),
                    slot_address: RawHook::Address(None),
                },
            )
        }
    }

    /// Creates a formatter with no flags and every format selector at its
    /// engine default.
    pub fn new(style: Style) -> (r: Result<Formatter, Status>)
        ensures
            r is Ok,
            r matches Ok(f) ==> f.wf() && f.all_default() && f.cfg() == (FmtConfig {
                style,
                flags: 0,
                address_format: AddressFormat::Default,
                displacement_format: DisplacementFormat::Default,
                immediate_format: ImmediateFormat::Default,
            }),
    {
        proof {
            assert(0u64 & !3u64 == 0u64) by (bit_vector);
        }
        Self::new_ex(
            style,
            0,
            AddressFormat::Default,
            DisplacementFormat::Default,
            ImmediateFormat::Default,
        )
    }

    /// Installs `hook` at the slot of its own kind and hands back the hook
    /// previously stored there - the engine default marker on the first call
    /// for that kind, the previously installed callback afterwards. Exactly
    /// one slot changes; the configuration and every other slot stay as they
    /// were.
    pub fn install_hook(&mut self, hook: Hook) -> (r: Result<Hook, Status>)
        requires
            old(self).wf(),
        ensures
            final(self).wf(),
            final(self).cfg() == old(self).cfg(),
            r is Ok,
            r matches Ok(prev) ==> spec_to_id(prev) == spec_to_id(hook) && hook_raw_eq(
                prev,
                old(self).slot(spec_to_id(hook)),
            ),
            hook_raw_eq(hook, final(self).slot(spec_to_id(hook))),
            forall|k: HookKind|
                k != spec_to_id(hook) ==> same_raw(final(self).slot(k), old(self).slot(k)),
    {
        let id = hook.to_id();
        let mut raw = hook.to_raw();
        proof {
            lemma_hook_raw_matches(hook, raw);
        }
        match id {
            HookKind::Pre => core::mem::swap(&mut self.slot_pre, &mut raw),
            HookKind::Post => core::mem::swap(&mut self.slot_post, &mut raw),
            HookKind::FormatInstruction => core::mem::swap(
                &mut self.slot_format_instruction,
                &mut raw,
            ),
            HookKind::PrintPrefixes => core::mem::swap(&mut self.slot_print_prefixes, &mut raw),
            HookKind::PrintMnemonic => core::mem::swap(&mut self.slot_print_mnemonic, &mut raw),
            HookKind::FormatOperandReg => core::mem::swap(&mut self.slot_op_reg, &mut raw),
            HookKind::FormatOperandMem => core::mem::swap(&mut self.slot_op_mem, &mut raw),
            HookKind::FormatOperandPtr => core::mem::swap(&mut self.slot_op_ptr, &mut raw),
            HookKind::FormatOperandImm => core::mem::swap(&mut self.slot_op_imm, &mut raw),
            HookKind::PrintOperandsize => core::mem::swap(&mut self.slot_operandsize, &mut raw),
            HookKind::PrintSegment => core::mem::swap(&mut self.slot_segment, &mut raw),
            HookKind::PrintDecorator => core::mem::swap(&mut self.slot_decorator, &mut raw),
            HookKind::PrintDisplacement => core::mem::swap(&mut self.slot_displacement, &mut raw),
            HookKind::PrintImmediate => core::mem::swap(&mut self.slot_immediate, &mut raw),
            HookKind::PrintAddress => core::mem::swap(&mut self.slot_address, &mut raw),
        }
        let prev = Hook::from_raw(id, raw);
        Ok(prev)
    }
}

/// What one conditional-exact rendering phase guarantees: on success the
/// buffer grew by exactly `piece` and still fits beside the terminator
/// slot; on failure nothing but a capacity overflow can be the cause.
pub open spec fn emit_post(b0: OutputBuffer, b1: OutputBuffer, r: Status, piece: Seq<char>) -> bool {
    &&& b1.cap() == b0.cap()
    &&& (r == Status::Success ==> b1.text() == b0.text() + piece && b1.text().len() + 1
        <= b1.cap())
    &&& (r != Status::Success ==> r == Status::InsufficientBufferSize && b0.text().len()
        + piece.len() + 1 > b0.cap())
}

impl Formatter {
    /// Renders the mnemonic: the installed hook if one is set, the
    /// instruction's own mnemonic text otherwise.
    fn emit_mnemonic(&self, buf: &mut OutputBuffer, instr: &DecodedInstruction) -> (r: Status)
        ensures
            self.all_default() ==> emit_post(*old(buf), *final(buf), r, instr.mnemonic@),
    {
        match &self.slot_print_mnemonic {
            RawHook::Format(cb) => match cb {
                Some(b) => b.run(buf, instr),
                None => buf.append(instr.mnemonic.as_str()),
            },
            _ => buf.append(instr.mnemonic.as_str()),
        }
    }

    /// Renders an immediate operand: the AT&T dollar sign, then the hook for
    /// the numeric body if one is set, the default body otherwise.
    fn emit_imm(&self, buf: &mut OutputBuffer, instr: &DecodedInstruction, idx: usize, v: u64) -> (r: Status)
        ensures
            self.all_default() ==> emit_post(
                *old(buf),
                *final(buf),
                r,
                spec_imm_text(self.cfg(), v),
            ),
    {
        if self.config.style == Style::Att {
            proof {
                reveal_strlit("$");
            }
            let st = buf.append("$");
            if st != Status::Success {
                return st;
            }
        }
        let st = match &self.slot_immediate {
            RawHook::FormatOperand(cb) => match cb {
                Some(b) => b.run(buf, instr, idx),
                None => {
                    let t = imm_body_text(&self.config, v);
                    buf.append(t.as_str())
                }
            },
            _ => {
                let t = imm_body_text(&self.config, v);
                buf.append(t.as_str())
            }
        };
        proof {
            if self.all_default() && st == Status::Success {
                assert(buf.text() =~= old(buf).text() + spec_imm_text(self.cfg(), v));
            }
        }
        st
    }

    /// Renders a memory operand in the configured style, consulting the
    /// segment and displacement hooks at their places.
    fn emit_mem(
        &self,
        buf: &mut OutputBuffer,
        instr: &DecodedInstruction,
        idx: usize,
        base: &String,
        d: u64,
    ) -> (r: Status)
        ensures
            self.all_default() ==> emit_post(
                *old(buf),
                *final(buf),
                r,
                spec_mem_text(self.cfg(), base@, d),
            ),
    {
        if self.config.style == Style::Att {
            match &self.slot_segment {
                RawHook::FormatOperand(cb) => match cb {
                    Some(b) => {
                        let st = b.run(buf, instr, idx);
                        if st != Status::Success {
                            return st;
                        }
                    }
                    None => {}
                },
                _ => {}
            }
            let st = match &self.slot_displacement {
                RawHook::FormatOperand(cb) => match cb {
                    Some(b) => b.run(buf, instr, idx),
                    None => {
                        let t = disp_text(&self.config, d);
                        buf.append(t.as_str())
                    }
                },
                _ => {
                    let t = disp_text(&self.config, d);
                    buf.append(t.as_str())
                }
            };
            if st != Status::Success {
                return st;
            }
            proof {
                reveal_strlit("(%");
                reveal_strlit(")");
            }
            let st = buf.append("(%");
            if st != Status::Success {
                return st;
            }
            let st = buf.append(base.as_str());
            if st != Status::Success {
                return st;
            }
            let st = buf.append(")");
            proof {
                if self.all_default() && st == Status::Success {
                    assert(buf.text() =~= old(buf).text() + spec_mem_text(self.cfg(), base@, d));
                }
            }
            st
        } else {
            proof {
                reveal_strlit("[");
                reveal_strlit("]");
            }
            let st = buf.append("[");
            if st != Status::Success {
                return st;
            }
            match &self.slot_segment {
                RawHook::FormatOperand(cb) => match cb {
                    Some(b) => {
                        let st = b.run(buf, instr, idx);
                        if st != Status::Success {
                            return st;
                        }
                    }
                    None => {}
                },
                _ => {}
            }
            let st = buf.append(base.as_str());
            if st != Status::Success {
                return st;
            }
            let st = match &self.slot_displacement {
                RawHook::FormatOperand(cb) => match cb {
                    Some(b) => b.run(buf, instr, idx),
                    None => {
                        let t = disp_text(&self.config, d);
                        buf.append(t.as_str())
                    }
                },
                _ => {
                    let t = disp_text(&self.config, d);
                    buf.append(t.as_str())
                }
            };
            if st != Status::Success {
                return st;
            }
            let st = buf.append("]");
            proof {
                if self.all_default() && st == Status::Success {
                    assert(buf.text() =~= old(buf).text() + spec_mem_text(self.cfg(), base@, d));
                }
            }
            st
        }
    }

    /// Renders a far-pointer operand: segment, colon, then the address hook
    /// or the default absolute address.
    fn emit_ptr(
        &self,
        buf: &mut OutputBuffer,
        instr: &DecodedInstruction,
        segment: u64,
        offset: u64,
    ) -> (r: Status)
        ensures
            self.all_default() ==> emit_post(
                *old(buf),
                *final(buf),
                r,
                spec_ptr_text(self.cfg(), segment, offset),
            ),
    {
        let upper = upper_hex_exec(&self.config);
        let mut head = String::from_str("0x");
        proof {
            reveal_strlit("0x");
            reveal_strlit(":");
        }
        head.append(hex_string(segment, upper).as_str());
        head.append(":");
        let st = buf.append(head.as_str());
        if st != Status::Success {
            return st;
        }
        let st = match &self.slot_address {
            RawHook::Address(cb) => match cb {
                Some(b) => b.run(buf, instr, offset),
                None => {
                    let t = addr_text(&self.config, offset);
                    buf.append(t.as_str())
                }
            },
            _ => {
                let t = addr_text(&self.config, offset);
                buf.append(t.as_str())
            }
        };
        proof {
            if self.all_default() && st == Status::Success {
                assert(buf.text() =~= old(buf).text() + spec_ptr_text(self.cfg(), segment, offset));
            }
        }
        st
    }

    /// Renders the operand at `idx`, consulting the size hook before it, the
    /// operand hook of its kind in place of the default, and the decorator
    /// hook after it.
    fn emit_operand(&self, buf: &mut OutputBuffer, instr: &DecodedInstruction, idx: usize) -> (r:
        Status)
        requires
            idx < instr.operands@.len(),
        ensures
            self.all_default() ==> emit_post(
                *old(buf),
                *final(buf),
                r,
                spec_operand_text(self.cfg(), instr.operands@[idx as int]),
            ),
    {
        match &self.slot_operandsize {
            RawHook::FormatOperand(cb) => match cb {
                Some(b) => {
                    let st = b.run(buf, instr, idx);
                    if st != Status::Success {
                        return st;
                    }
                }
                None => {}
            },
            _ => {}
        }
        let st = match &instr.operands[idx] {
            Operand::Register(name) => {
                match &self.slot_op_reg {
                    RawHook::FormatOperand(cb) => match cb {
                        Some(b) => b.run(buf, instr, idx),
                        None => {
                            let t = reg_text(&self.config, name);
                            buf.append(t.as_str())
                        }
                    },
                    _ => {
                        let t = reg_text(&self.config, name);
                        buf.append(t.as_str())
                    }
                }
            }
            Operand::Immediate(v) => {
                match &self.slot_op_imm {
                    RawHook::FormatOperand(cb) => match cb {
                        Some(b) => b.run(buf, instr, idx),
                        None => self.emit_imm(buf, instr, idx, *v),
                    },
                    _ => self.emit_imm(buf, instr, idx, *v),
                }
            }
            Operand::Memory { base, displacement } => {
                match &self.slot_op_mem {
                    RawHook::FormatOperand(cb) => match cb {
                        Some(b) => b.run(buf, instr, idx),
                        None => self.emit_mem(buf, instr, idx, base, *displacement),
                    },
                    _ => self.emit_mem(buf, instr, idx, base, *displacement),
                }
            }
            Operand::Pointer { segment, offset } => {
                match &self.slot_op_ptr {
                    RawHook::FormatOperand(cb) => match cb {
                        Some(b) => b.run(buf, instr, idx),
                        None => self.emit_ptr(buf, instr, *segment, *offset),
                    },
                    _ => self.emit_ptr(buf, instr, *segment, *offset),
                }
            }
        };
        if st != Status::Success {
            return st;
        }
        match &self.slot_decorator {
            RawHook::FormatOperand(cb) => match cb {
                Some(b) => {
                    let st2 = b.run(buf, instr, idx);
                    if st2 != Status::Success {
                        return st2;
                    }
                }
                None => {}
            },
            _ => {}
        }
        Status::Success
    }

    /// The default whole-line rendering: prefixes, mnemonic, then every
    /// operand in style order with its separator.
    fn render_body(&self, buf: &mut OutputBuffer, instr: &DecodedInstruction) -> (r: Status)
        ensures
            self.all_default() ==> emit_post(
                *old(buf),
                *final(buf),
                r,
                spec_render(self.cfg(), *instr),
            ),
    {
        match &self.slot_print_prefixes {
            RawHook::Format(cb) => match cb {
                Some(b) => {
                    let st = b.run(buf, instr);
                    if st != Status::Success {
                        return st;
                    }
                }
                None => {}
            },
            _ => {}
        }
        let st = self.emit_mnemonic(buf, instr);
        if st != Status::Success {
            return st;
        }
        let n = instr.operands.len();
        let ghost cfg = self.cfg();
        let ghost ops = instr.operands@;
        let mut j: usize = 0;
        while j < n
            invariant
                n == ops.len(),
                ops == instr.operands@,
                cfg == self.cfg(),
                j <= n,
                self.all_default() ==> buf.cap() == old(buf).cap() && buf.text() == old(buf).text()
                    + instr.mnemonic@ + spec_ops_prefix(cfg, ops, j as int) && buf.text().len()
                    + 1 <= buf.cap(),
            decreases n - j,
        {
            let st = if j == 0 {
                proof {
                    reveal_strlit(" ");
                }
                buf.append(" ")
            } else {
                proof {
                    reveal_strlit(", ");
                }
                buf.append(", ")
            };
            if st != Status::Success {
                proof {
                    if self.all_default() {
                        lemma_ops_prefix_mono(cfg, ops, j + 1 as int, ops.len() as int);
                    }
                }
                return st;
            }
            let idx = if self.config.style == Style::Att {
                n - 1 - j
            } else {
                j
            };
            let st = self.emit_operand(buf, instr, idx);
            if st != Status::Success {
                proof {
                    if self.all_default() {
                        lemma_ops_prefix_mono(cfg, ops, j + 1 as int, ops.len() as int);
                    }
                }
                return st;
            }
            proof {
                if self.all_default() {
                    assert(buf.text() =~= old(buf).text() + instr.mnemonic@ + spec_ops_prefix(
                        cfg,
                        ops,
                        j + 1 as int,
                    ));
                }
            }
            j = j + 1;
        }
        proof {
            if self.all_default() {
                assert(buf.text() =~= old(buf).text() + spec_render(cfg, *instr));
            }
        }
        Status::Success
    }

    /// One full rendering pass: the pre hook, the whole-line hook or the
    /// default body, the post hook; the first non-success status aborts the
    /// pass and is handed back unchanged.
    fn render(&self, buf: &mut OutputBuffer, instr: &DecodedInstruction) -> (r: Status)
        ensures
            self.all_default() ==> emit_post(
                *old(buf),
                *final(buf),
                r,
                spec_render(self.cfg(), *instr),
            ),
    {
        match &self.slot_pre {
            RawHook::Notify(cb) => match cb {
                Some(b) => {
                    let st = b.run(instr);
                    if st != Status::Success {
                        return st;
                    }
                }
                None => {}
            },
            _ => {}
        }
        let st = match &self.slot_format_instruction {
            RawHook::Format(cb) => match cb {
                Some(b) => b.run(buf, instr),
                None => self.render_body(buf, instr),
            },
            _ => self.render_body(buf, instr),
        };
        if st != Status::Success {
            return st;
        }
        match &self.slot_post {
            RawHook::Notify(cb) => match cb {
                Some(b) => {
                    let st2 = b.run(instr);
                    if st2 != Status::Success {
                        return st2;
                    }
                }
                None => {}
            },
            _ => {}
        }
        Status::Success
    }
}

/// What `format_instruction` guarantees on a formatter whose table is still
/// all at the engine default: the call succeeds exactly when the rendered
/// text fits the scratch capacity beside its terminator slot, a success
/// carries exactly the rendered text, and the only failure is the
/// capacity overflow.
pub open spec fn format_post(f: Formatter, instr: DecodedInstruction, r: Result<String, Status>) -> bool {
    &&& (r is Ok <==> spec_render(f.cfg(), instr).len() + 1 <= SCRATCH_CAPACITY)
    &&& (r matches Ok(s) ==> s@ == spec_render(f.cfg(), instr))
    &&& (r matches Err(e) ==> e == Status::InsufficientBufferSize)
}

impl Formatter {
    /// Renders one instruction into an owned string through a fresh scratch
    /// buffer. The formatter's own state is never changed; the instruction
    /// is handed back as it came. Text that would not fit the scratch
    /// capacity beside its terminator slot is a failure, never a truncated
    /// string, whatever hooks are installed.
    pub fn format_instruction(&mut self, instruction: &mut DecodedInstruction) -> (r: Result<
        String,
        Status,
    >)
        requires
            old(self).wf(),
        ensures
            final(self).wf(),
            final(self).cfg() == old(self).cfg(),
            forall|k: HookKind| same_raw(#[trigger] final(self).slot(k), old(self).slot(k)),
            final(self).all_default() == old(self).all_default(),
            *final(instruction) == *old(instruction),
            old(self).all_default() ==> format_post(*old(self), *old(instruction), r),
            r matches Ok(s) ==> s@.len() + 1 <= SCRATCH_CAPACITY,
            r matches Err(e) ==> e != Status::Success,
    {
        let mut buffer = OutputBuffer::new(SCRATCH_CAPACITY);
        let st = self.render(&mut buffer, instruction);
        if st != Status::Success {
            return Err(st);
        }
        if buffer.len() < SCRATCH_CAPACITY {
            Ok(buffer.into_string())
        } else {
            Err(Status::InsufficientBufferSize)
        }
    }
}

/// Formatting is a pure function of the configuration and the instruction
/// while the hook table is at the engine default: two calls on the same
/// formatter and instruction give results that agree - the same rendered
/// text, or the same failure status.
pub proof fn lemma_format_idempotent(
    f: Formatter,
    instr: DecodedInstruction,
    r1: Result<String, Status>,
    r2: Result<String, Status>,
)
    requires
        f.all_default(),
        format_post(f, instr, r1),
        format_post(f, instr, r2),
    ensures
        match (r1, r2) {
            (Ok(a), Ok(b)) => a@ == b@,
            (Err(a), Err(b)) => a == b,
            _ => false,
        },
{
}

/// Replacing a hook a second time hands back the hook installed first: a
/// hook read back from the table value the first installation stored, under
/// the same kind, is observably equivalent to the hook that was installed.
pub proof fn lemma_replacement_returns_installed(installed: Hook, stored: RawHook, returned: Hook)
    requires
        hook_raw_eq(installed, stored),
        spec_to_id(returned) == spec_to_id(installed),
        hook_raw_eq(returned, stored),
    ensures
        hooks_equivalent(returned, installed),
{
    lemma_hook_round_trip(installed, stored, returned);
}

/// Text that would not fit the scratch capacity beside its terminator slot
/// is rejected outright, never handed back truncated.
pub proof fn lemma_format_overflow_rejected(
    f: Formatter,
    instr: DecodedInstruction,
    r: Result<String, Status>,
)
    requires
        f.all_default(),
        format_post(f, instr, r),
        spec_render(f.cfg(), instr).len() + 1 > SCRATCH_CAPACITY,
    ensures
        match r {
            Ok(_) => false,
            Err(e) => e == Status::InsufficientBufferSize,
        },
{
}

/// A formatter freshly built from `cfg`: well-formed, carrying `cfg`, with
/// every hook slot at the engine default.
pub open spec fn fresh_formatter(f: Formatter, cfg: FmtConfig) -> bool {
    f.wf() && f.all_default() && f.cfg() == cfg
}

/// Two formatters are observably equivalent when they carry the same
/// configuration and every hook slot stores the identical value.
pub open spec fn formatters_equivalent(a: Formatter, b: Formatter) -> bool {
    a.cfg() == b.cfg() && forall|k: HookKind| same_raw(#[trigger] a.slot(k), b.slot(k))
}

/// Building a formatter through the convenience constructor is the same as
/// building it through the full constructor with no flags and every format
/// selector at its default: any two formatters fresh from that one
/// configuration are observably equivalent.
pub proof fn lemma_new_equals_new_ex(a: Formatter, b: Formatter, cfg: FmtConfig)
    requires
        fresh_formatter(a, cfg),
        fresh_formatter(b, cfg),
    ensures
        formatters_equivalent(a, b),
{
    assert forall|k: HookKind| same_raw(#[trigger] a.slot(k), b.slot(k)) by {
        match k {
            HookKind::Pre => {},
            HookKind::Post => {},
            HookKind::FormatInstruction => {},
            HookKind::PrintPrefixes => {},
            HookKind::PrintMnemonic => {},
            HookKind::FormatOperandReg => {},
            HookKind::FormatOperandMem => {},
            HookKind::FormatOperandPtr => {},
            HookKind::FormatOperandImm => {},
            HookKind::PrintOperandsize => {},
            HookKind::PrintSegment => {},
            HookKind::PrintDecorator => {},
            HookKind::PrintDisplacement => {},
            HookKind::PrintImmediate => {},
            HookKind::PrintAddress => {},
        }
    }
}

} // verus!
