use vstd::prelude::*;

use crate::buffer::OutputBuffer;
use crate::instruction::DecodedInstruction;
use crate::status::Status;

verus! {

/// Callback overriding a notification phase, invoked before or after one
/// instruction is rendered.
pub trait NotifyHook {
    fn run(&self, instruction: &DecodedInstruction) -> Status;
}

/// Callback overriding a line-level phase: the whole instruction, the
/// prefixes, or the mnemonic.
pub trait FormatHook {
    fn run(&self, buffer: &mut OutputBuffer, instruction: &DecodedInstruction) -> Status;
}

/// Callback overriding one operand-level phase; it receives the index of the
/// operand being rendered.
pub trait FormatOperandHook {
    fn run(
        &self,
        buffer: &mut OutputBuffer,
        instruction: &DecodedInstruction,
        operand_index: usize,
    ) -> Status;
}

/// Callback overriding the printing of a resolved numeric address.
pub trait FormatAddressHook {
    fn run(
        &self,
        buffer: &mut OutputBuffer,
        instruction: &DecodedInstruction,
        address: u64,
    ) -> Status;
}

/// The closed set of extension points, one per phase of instruction
/// rendering.
#[derive(Clone, Copy, Debug, PartialEq, Eq, Structural)]
pub enum HookKind {
    Pre,
    Post,
    FormatInstruction,
    PrintPrefixes,
    PrintMnemonic,
    FormatOperandReg,
    FormatOperandMem,
    FormatOperandPtr,
    FormatOperandImm,
    PrintOperandsize,
    PrintSegment,
    PrintDecorator,
    PrintDisplacement,
    PrintImmediate,
    PrintAddress,
}

/// The four callback signatures the extension points share.
#[derive(PartialEq, Eq, Structural)]
pub enum HookClass {
    Notify,
    Format,
    FormatOperand,
    Address,
}

/// Type-erased callback value as the engine's hook table stores it: the kind
/// tag is gone, only the signature class remains; a `None` payload marks a
/// slot still at the engine default.
pub enum RawHook {
    Notify(Option<Box<dyn NotifyHook>>),
    Format(Option<Box<dyn FormatHook>>),
    FormatOperand(Option<Box<dyn FormatOperandHook>>),
    Address(Option<Box<dyn FormatAddressHook>>),
}

/// A formatting extension point together with a callback of the matching
/// signature; a `None` payload stands for the engine's default behaviour.
pub enum Hook {
    FuncPre(Option<Box<dyn NotifyHook>>),
    FuncPost(Option<Box<dyn NotifyHook>>),
    FuncFormatInstruction(Option<Box<dyn FormatHook>>),
    FuncPrintPrefixes(Option<Box<dyn FormatHook>>),
    FuncPrintMnemonic(Option<Box<dyn FormatHook>>),
    FuncFormatOperandReg(Option<Box<dyn FormatOperandHook>>),
    FuncFormatOperandMem(Option<Box<dyn FormatOperandHook>>),
    FuncFormatOperandPtr(Option<Box<dyn FormatOperandHook>>),
    FuncFormatOperandImm(Option<Box<dyn FormatOperandHook>>),
    FuncPrintOperandsize(Option<Box<dyn FormatOperandHook>>),
    FuncPrintSegment(Option<Box<dyn FormatOperandHook>>),
    FuncPrintDecorator(Option<Box<dyn FormatOperandHook>>),
    FuncPrintDisplacement(Option<Box<dyn FormatOperandHook>>),
    FuncPrintImmediate(Option<Box<dyn FormatOperandHook>>),
    FuncPrintAddress(Option<Box<dyn FormatAddressHook>>),
}

/// The callback signature an extension point carries.
pub open spec fn class_of_kind(kind: HookKind) -> HookClass {
    match kind {
        HookKind::Pre => HookClass::Notify,
        HookKind::Post => HookClass::Notify,
        HookKind::FormatInstruction => HookClass::Format,
        HookKind::PrintPrefixes => HookClass::Format,
        HookKind::PrintMnemonic => HookClass::Format,
        HookKind::FormatOperandReg => HookClass::FormatOperand,
        HookKind::FormatOperandMem => HookClass::FormatOperand,
        HookKind::FormatOperandPtr => HookClass::FormatOperand,
        HookKind::FormatOperandImm => HookClass::FormatOperand,
        HookKind::PrintOperandsize => HookClass::FormatOperand,
        HookKind::PrintSegment => HookClass::FormatOperand,
        HookKind::PrintDecorator => HookClass::FormatOperand,
        HookKind::PrintDisplacement => HookClass::FormatOperand,
        HookKind::PrintImmediate => HookClass::FormatOperand,
        HookKind::PrintAddress => HookClass::Address,
    }
}

/// The signature class of a stored table value.
pub open spec fn class_of_raw(raw: RawHook) -> HookClass {
    match raw {
        RawHook::Notify(_) => HookClass::Notify,
        RawHook::Format(_) => HookClass::Format,
        RawHook::FormatOperand(_) => HookClass::FormatOperand,
        RawHook::Address(_) => HookClass::Address,
    }
}

/// Whether a stored table value can be read back as a hook of `kind`: its
/// signature class must be exactly the class of `kind`.
pub open spec fn raw_matches(kind: HookKind, raw: RawHook) -> bool {
    class_of_raw(raw) == class_of_kind(kind)
}

/// Whether a stored table value is the engine's default marker.
pub open spec fn raw_is_default(raw: RawHook) -> bool {
    match raw {
        RawHook::Notify(cb) => cb is None,
        RawHook::Format(cb) => cb is None,
        RawHook::FormatOperand(cb) => cb is None,
        RawHook::Address(cb) => cb is None,
    }
}

pub open spec fn spec_to_id(h: Hook) -> HookKind {
    match h {
        Hook::FuncPre(_) => HookKind::Pre,
        Hook::FuncPost(_) => HookKind::Post,
        Hook::FuncFormatInstruction(_) => HookKind::FormatInstruction,
        Hook::FuncPrintPrefixes(_) => HookKind::PrintPrefixes,
        Hook::FuncPrintMnemonic(_) => HookKind::PrintMnemonic,
        Hook::FuncFormatOperandReg(_) => HookKind::FormatOperandReg,
        Hook::FuncFormatOperandMem(_) => HookKind::FormatOperandMem,
        Hook::FuncFormatOperandPtr(_) => HookKind::FormatOperandPtr,
        Hook::FuncFormatOperandImm(_) => HookKind::FormatOperandImm,
        Hook::FuncPrintOperandsize(_) => HookKind::PrintOperandsize,
        Hook::FuncPrintSegment(_) => HookKind::PrintSegment,
        Hook::FuncPrintDecorator(_) => HookKind::PrintDecorator,
        Hook::FuncPrintDisplacement(_) => HookKind::PrintDisplacement,
        Hook::FuncPrintImmediate(_) => HookKind::PrintImmediate,
        Hook::FuncPrintAddress(_) => HookKind::PrintAddress,
    }
}

/// The identical callback payload: both absent, or both present and the
/// same callback value.
pub open spec fn same_notify(a: Option<Box<dyn NotifyHook>>, b: Option<Box<dyn NotifyHook>>) -> bool {
    match (a, b) {
        (Some(x), Some(y)) => x == y,
        (None, None) => true,
        _ => false,
    }
}

pub open spec fn same_format(a: Option<Box<dyn FormatHook>>, b: Option<Box<dyn FormatHook>>) -> bool {
    match (a, b) {
        (Some(x), Some(y)) => x == y,
        (None, None) => true,
        _ => false,
    }
}

pub open spec fn same_operand(
    a: Option<Box<dyn FormatOperandHook>>,
    b: Option<Box<dyn FormatOperandHook>>,
) -> bool {
    match (a, b) {
        (Some(x), Some(y)) => x == y,
        (None, None) => true,
        _ => false,
    }
}

pub open spec fn same_address(
    a: Option<Box<dyn FormatAddressHook>>,
    b: Option<Box<dyn FormatAddressHook>>,
) -> bool {
    match (a, b) {
        (Some(x), Some(y)) => x == y,
        (None, None) => true,
        _ => false,
    }
}

/// The identical stored table value: the same signature class carrying the
/// identical callback payload.
pub open spec fn same_raw(a: RawHook, b: RawHook) -> bool {
    match (a, b) {
        (RawHook::Notify(x), RawHook::Notify(y)) => same_notify(x, y),
        (RawHook::Format(x), RawHook::Format(y)) => same_format(x, y),
        (RawHook::FormatOperand(x), RawHook::FormatOperand(y)) => same_operand(x, y),
        (RawHook::Address(x), RawHook::Address(y)) => same_address(x, y),
        _ => false,
    }
}

/// Whether `raw` is exactly the type-erased image of the hook `h`: the class
/// of the hook's kind, carrying the hook's own callback payload.
pub open spec fn hook_raw_eq(h: Hook, raw: RawHook) -> bool {
    match h {
        Hook::FuncPre(cb) => match raw {
            RawHook::Notify(x) => same_notify(cb, x),
            _ => false,
        },
        Hook::FuncPost(cb) => match raw {
            RawHook::Notify(x) => same_notify(cb, x),
            _ => false,
        },
        Hook::FuncFormatInstruction(cb) => match raw {
            RawHook::Format(x) => same_format(cb, x),
            _ => false,
        },
        Hook::FuncPrintPrefixes(cb) => match raw {
            RawHook::Format(x) => same_format(cb, x),
            _ => false,
        },
        Hook::FuncPrintMnemonic(cb) => match raw {
            RawHook::Format(x) => same_format(cb, x),
            _ => false,
        },
        Hook::FuncFormatOperandReg(cb) => match raw {
            RawHook::FormatOperand(x) => same_operand(cb, x),
            _ => false,
        },
        Hook::FuncFormatOperandMem(cb) => match raw {
            RawHook::FormatOperand(x) => same_operand(cb, x),
            _ => false,
        },
        Hook::FuncFormatOperandPtr(cb) => match raw {
            RawHook::FormatOperand(x) => same_operand(cb, x),
            _ => false,
        },
        Hook::FuncFormatOperandImm(cb) => match raw {
            RawHook::FormatOperand(x) => same_operand(cb, x),
            _ => false,
        },
        Hook::FuncPrintOperandsize(cb) => match raw {
            RawHook::FormatOperand(x) => same_operand(cb, x),
            _ => false,
        },
        Hook::FuncPrintSegment(cb) => match raw {
            RawHook::FormatOperand(x) => same_operand(cb, x),
            _ => false,
        },
        Hook::FuncPrintDecorator(cb) => match raw {
            RawHook::FormatOperand(x) => same_operand(cb, x),
            _ => false,
        },
        Hook::FuncPrintDisplacement(cb) => match raw {
            RawHook::FormatOperand(x) => same_operand(cb, x),
            _ => false,
        },
        Hook::FuncPrintImmediate(cb) => match raw {
            RawHook::FormatOperand(x) => same_operand(cb, x),
            _ => false,
        },
        Hook::FuncPrintAddress(cb) => match raw {
            RawHook::Address(x) => same_address(cb, x),
            _ => false,
        },
    }
}

/// Two hooks are observably equivalent when they override the same extension
/// point and carry the identical callback payload.
pub open spec fn hooks_equivalent(a: Hook, b: Hook) -> bool {
    match (a, b) {
        (Hook::FuncPre(x), Hook::FuncPre(y)) => same_notify(x, y),
        (Hook::FuncPost(x), Hook::FuncPost(y)) => same_notify(x, y),
        (Hook::FuncFormatInstruction(x), Hook::FuncFormatInstruction(y)) => same_format(x, y),
        (Hook::FuncPrintPrefixes(x), Hook::FuncPrintPrefixes(y)) => same_format(x, y),
        (Hook::FuncPrintMnemonic(x), Hook::FuncPrintMnemonic(y)) => same_format(x, y),
        (Hook::FuncFormatOperandReg(x), Hook::FuncFormatOperandReg(y)) => same_operand(x, y),
        (Hook::FuncFormatOperandMem(x), Hook::FuncFormatOperandMem(y)) => same_operand(x, y),
        (Hook::FuncFormatOperandPtr(x), Hook::FuncFormatOperandPtr(y)) => same_operand(x, y),
        (Hook::FuncFormatOperandImm(x), Hook::FuncFormatOperandImm(y)) => same_operand(x, y),
        (Hook::FuncPrintOperandsize(x), Hook::FuncPrintOperandsize(y)) => same_operand(x, y),
        (Hook::FuncPrintSegment(x), Hook::FuncPrintSegment(y)) => same_operand(x, y),
        (Hook::FuncPrintDecorator(x), Hook::FuncPrintDecorator(y)) => same_operand(x, y),
        (Hook::FuncPrintDisplacement(x), Hook::FuncPrintDisplacement(y)) => same_operand(x, y),
        (Hook::FuncPrintImmediate(x), Hook::FuncPrintImmediate(y)) => same_operand(x, y),
        (Hook::FuncPrintAddress(x), Hook::FuncPrintAddress(y)) => same_address(x, y),
        _ => false,
    }
}

impl Hook {
    /// The extension point this hook overrides; total, one kind per variant.
    pub fn to_id(&self) -> (r: HookKind)
        ensures
            r == spec_to_id(*self),
    {
        match self {
            Hook::FuncPre(_) => HookKind::Pre,
            Hook::FuncPost(_) => HookKind::Post,
            Hook::FuncFormatInstruction(_) => HookKind::FormatInstruction,
            Hook::FuncPrintPrefixes(_) => HookKind::PrintPrefixes,
            Hook::FuncPrintMnemonic(_) => HookKind::PrintMnemonic,
            Hook::FuncFormatOperandReg(_) => HookKind::FormatOperandReg,
            Hook::FuncFormatOperandMem(_) => HookKind::FormatOperandMem,
            Hook::FuncFormatOperandPtr(_) => HookKind::FormatOperandPtr,
            Hook::FuncFormatOperandImm(_) => HookKind::FormatOperandImm,
            Hook::FuncPrintOperandsize(_) => HookKind::PrintOperandsize,
            Hook::FuncPrintSegment(_) => HookKind::PrintSegment,
            Hook::FuncPrintDecorator(_) => HookKind::PrintDecorator,
            Hook::FuncPrintDisplacement(_) => HookKind::PrintDisplacement,
            Hook::FuncPrintImmediate(_) => HookKind::PrintImmediate,
            Hook::FuncPrintAddress(_) => HookKind::PrintAddress,
        }
    }

    /// Erases the kind tag, handing the callback value out in the shape the
    /// engine's table stores it; the callback itself is moved, not altered.
    pub fn to_raw(self) -> (r: RawHook)
        ensures
            hook_raw_eq(self, r),
    {
        match self {
            Hook::FuncPre(cb) => RawHook::Notify(cb),
            Hook::FuncPost(cb) => RawHook::Notify(cb),
            Hook::FuncFormatInstruction(cb) => RawHook::Format(cb),
            Hook::FuncPrintPrefixes(cb) => RawHook::Format(cb),
            Hook::FuncPrintMnemonic(cb) => RawHook::Format(cb),
            Hook::FuncFormatOperandReg(cb) => RawHook::FormatOperand(cb),
            Hook::FuncFormatOperandMem(cb) => RawHook::FormatOperand(cb),
            Hook::FuncFormatOperandPtr(cb) => RawHook::FormatOperand(cb),
            Hook::FuncFormatOperandImm(cb) => RawHook::FormatOperand(cb),
            Hook::FuncPrintOperandsize(cb) => RawHook::FormatOperand(cb),
            Hook::FuncPrintSegment(cb) => RawHook::FormatOperand(cb),
            Hook::FuncPrintDecorator(cb) => RawHook::FormatOperand(cb),
            Hook::FuncPrintDisplacement(cb) => RawHook::FormatOperand(cb),
            Hook::FuncPrintImmediate(cb) => RawHook::FormatOperand(cb),
            Hook::FuncPrintAddress(cb) => RawHook::Address(cb),
        }
    }

    /// Rebuilds the typed hook for `id` from a stored table value. The value
    /// must carry the signature class belonging to `id`; kinds outside the
    /// closed enumeration cannot be written at all, so no case is left to
    /// reject at run time.
    pub fn from_raw(id: HookKind, cb: RawHook) -> (r: Hook)
        requires
            raw_matches(id, cb),
        ensures
            spec_to_id(r) == id,
            hook_raw_eq(r, cb),
    {
        match id {
            HookKind::Pre => Hook::FuncPre(match cb {
                RawHook::Notify(b) => b,
                _ => None,
            }),
            HookKind::Post => Hook::FuncPost(match cb {
                RawHook::Notify(b) => b,
                _ => None,
            }),
            HookKind::FormatInstruction => Hook::FuncFormatInstruction(match cb {
                RawHook::Format(b) => b,
                _ => None,
            }),
            HookKind::PrintPrefixes => Hook::FuncPrintPrefixes(match cb {
                RawHook::Format(b) => b,
                _ => None,
            }),
            HookKind::PrintMnemonic => Hook::FuncPrintMnemonic(match cb {
                RawHook::Format(b) => b,
                _ => None,
            }),
            HookKind::FormatOperandReg => Hook::FuncFormatOperandReg(match cb {
                RawHook::FormatOperand(b) => b,
                _ => None,
            }),
            HookKind::FormatOperandMem => Hook::FuncFormatOperandMem(match cb {
                RawHook::FormatOperand(b) => b,
                _ => None,
            }),
            HookKind::FormatOperandPtr => Hook::FuncFormatOperandPtr(match cb {
                RawHook::FormatOperand(b) => b,
                _ => None,
            }),
            HookKind::FormatOperandImm => Hook::FuncFormatOperandImm(match cb {
                RawHook::FormatOperand(b) => b,
                _ => None,
            }),
            HookKind::PrintOperandsize => Hook::FuncPrintOperandsize(match cb {
                RawHook::FormatOperand(b) => b,
                _ => None,
            }),
            HookKind::PrintSegment => Hook::FuncPrintSegment(match cb {
                RawHook::FormatOperand(b) => b,
                _ => None,
            }),
            HookKind::PrintDecorator => Hook::FuncPrintDecorator(match cb {
                RawHook::FormatOperand(b) => b,
                _ => None,
            }),
            HookKind::PrintDisplacement => Hook::FuncPrintDisplacement(match cb {
                RawHook::FormatOperand(b) => b,
                _ => None,
            }),
            HookKind::PrintImmediate => Hook::FuncPrintImmediate(match cb {
                RawHook::FormatOperand(b) => b,
                _ => None,
            }),
            HookKind::PrintAddress => Hook::FuncPrintAddress(match cb {
                RawHook::Address(b) => b,
                _ => None,
            }),
        }
    }
}

/// The type-erased image of a hook always matches the hook's own kind, so
/// it can be read back under that kind.
pub proof fn lemma_hook_raw_matches(h: Hook, raw: RawHook)
    requires
        hook_raw_eq(h, raw),
    ensures
        raw_matches(spec_to_id(h), raw),
{
    match h {
        Hook::FuncPre(cb) => {
            match (cb, raw) {
                (Some(_), RawHook::Notify(_)) => {},
                _ => {},
            }
        }
        Hook::FuncPost(cb) => {
            match (cb, raw) {
                (Some(_), RawHook::Notify(_)) => {},
                _ => {},
            }
        }
        Hook::FuncFormatInstruction(cb) => {
            match (cb, raw) {
                (Some(_), RawHook::Format(_)) => {},
                _ => {},
            }
        }
        Hook::FuncPrintPrefixes(cb) => {
            match (cb, raw) {
                (Some(_), RawHook::Format(_)) => {},
                _ => {},
            }
        }
        Hook::FuncPrintMnemonic(cb) => {
            match (cb, raw) {
                (Some(_), RawHook::Format(_)) => {},
                _ => {},
            }
        }
        Hook::FuncFormatOperandReg(cb) => {
            match (cb, raw) {
                (Some(_), RawHook::FormatOperand(_)) => {},
                _ => {},
            }
        }
        Hook::FuncFormatOperandMem(cb) => {
            match (cb, raw) {
                (Some(_), RawHook::FormatOperand(_)) => {},
                _ => {},
            }
        }
        Hook::FuncFormatOperandPtr(cb) => {
            match (cb, raw) {
                (Some(_), RawHook::FormatOperand(_)) => {},
                _ => {},
            }
        }
        Hook::FuncFormatOperandImm(cb) => {
            match (cb, raw) {
                (Some(_), RawHook::FormatOperand(_)) => {},
                _ => {},
            }
        }
        Hook::FuncPrintOperandsize(cb) => {
            match (cb, raw) {
                (Some(_), RawHook::FormatOperand(_)) => {},
                _ => {},
            }
        }
        Hook::FuncPrintSegment(cb) => {
            match (cb, raw) {
                (Some(_), RawHook::FormatOperand(_)) => {},
                _ => {},
            }
        }
        Hook::FuncPrintDecorator(cb) => {
            match (cb, raw) {
                (Some(_), RawHook::FormatOperand(_)) => {},
                _ => {},
            }
        }
        Hook::FuncPrintDisplacement(cb) => {
            match (cb, raw) {
                (Some(_), RawHook::FormatOperand(_)) => {},
                _ => {},
            }
        }
        Hook::FuncPrintImmediate(cb) => {
            match (cb, raw) {
                (Some(_), RawHook::FormatOperand(_)) => {},
                _ => {},
            }
        }
        Hook::FuncPrintAddress(cb) => {
            match (cb, raw) {
                (Some(_), RawHook::Address(_)) => {},
                _ => {},
            }
        }
    }
}

/// Round trip through the untyped representation: any hook read back from
/// the erased image of `h`, under the kind of `h`, is observably equivalent
/// to `h` itself - it overrides the same extension point and carries the
/// identical callback value.
pub proof fn lemma_hook_round_trip(h: Hook, raw: RawHook, h2: Hook)
    requires
        hook_raw_eq(h, raw),
        spec_to_id(h2) == spec_to_id(h),
        hook_raw_eq(h2, raw),
    ensures
        hooks_equivalent(h2, h),
{
    match h {
        Hook::FuncPre(cb) => {
            match (cb, raw, h2) {
                (Some(_), RawHook::Notify(_), Hook::FuncPre(Some(_))) => {},
                _ => {},
            }
        }
        Hook::FuncPost(cb) => {
            match (cb, raw, h2) {
                (Some(_), RawHook::Notify(_), Hook::FuncPost(Some(_))) => {},
                _ => {},
            }
        }
        Hook::FuncFormatInstruction(cb) => {
            match (cb, raw, h2) {
                (Some(_), RawHook::Format(_), Hook::FuncFormatInstruction(Some(_))) => {},
                _ => {},
            }
        }
        Hook::FuncPrintPrefixes(cb) => {
            match (cb, raw, h2) {
                (Some(_), RawHook::Format(_), Hook::FuncPrintPrefixes(Some(_))) => {},
                _ => {},
            }
        }
        Hook::FuncPrintMnemonic(cb) => {
            match (cb, raw, h2) {
                (Some(_), RawHook::Format(_), Hook::FuncPrintMnemonic(Some(_))) => {},
                _ => {},
            }
        }
        Hook::FuncFormatOperandReg(cb) => {
            match (cb, raw, h2) {
                (Some(_), RawHook::FormatOperand(_), Hook::FuncFormatOperandReg(Some(_))) => {},
                _ => {},
            }
        }
        Hook::FuncFormatOperandMem(cb) => {
            match (cb, raw, h2) {
                (Some(_), RawHook::FormatOperand(_), Hook::FuncFormatOperandMem(Some(_))) => {},
                _ => {},
            }
        }
        Hook::FuncFormatOperandPtr(cb) => {
            match (cb, raw, h2) {
                (Some(_), RawHook::FormatOperand(_), Hook::FuncFormatOperandPtr(Some(_))) => {},
                _ => {},
            }
        }
        Hook::FuncFormatOperandImm(cb) => {
            match (cb, raw, h2) {
                (Some(_), RawHook::FormatOperand(_), Hook::FuncFormatOperandImm(Some(_))) => {},
                _ => {},
            }
        }
        Hook::FuncPrintOperandsize(cb) => {
            match (cb, raw, h2) {
                (Some(_), RawHook::FormatOperand(_), Hook::FuncPrintOperandsize(Some(_))) => {},
                _ => {},
            }
        }
        Hook::FuncPrintSegment(cb) => {
            match (cb, raw, h2) {
                (Some(_), RawHook::FormatOperand(_), Hook::FuncPrintSegment(Some(_))) => {},
                _ => {},
            }
        }
        Hook::FuncPrintDecorator(cb) => {
            match (cb, raw, h2) {
                (Some(_), RawHook::FormatOperand(_), Hook::FuncPrintDecorator(Some(_))) => {},
                _ => {},
            }
        }
        Hook::FuncPrintDisplacement(cb) => {
            match (cb, raw, h2) {
                (Some(_), RawHook::FormatOperand(_), Hook::FuncPrintDisplacement(Some(_))) => {},
                _ => {},
            }
        }
        Hook::FuncPrintImmediate(cb) => {
            match (cb, raw, h2) {
                (Some(_), RawHook::FormatOperand(_), Hook::FuncPrintImmediate(Some(_))) => {},
                _ => {},
            }
        }
        Hook::FuncPrintAddress(cb) => {
            match (cb, raw, h2) {
                (Some(_), RawHook::Address(_), Hook::FuncPrintAddress(Some(_))) => {},
                _ => {},
            }
        }
    }
}

} // verus!

verus! {

/// A hook that stands for the engine's default behaviour: it carries no
/// callback of its own.
pub open spec fn hook_is_default(h: Hook) -> bool {
    match h {
        Hook::FuncPre(cb) => cb is None,
        Hook::FuncPost(cb) => cb is None,
        Hook::FuncFormatInstruction(cb) => cb is None,
        Hook::FuncPrintPrefixes(cb) => cb is None,
        Hook::FuncPrintMnemonic(cb) => cb is None,
        Hook::FuncFormatOperandReg(cb) => cb is None,
        Hook::FuncFormatOperandMem(cb) => cb is None,
        Hook::FuncFormatOperandPtr(cb) => cb is None,
        Hook::FuncFormatOperandImm(cb) => cb is None,
        Hook::FuncPrintOperandsize(cb) => cb is None,
        Hook::FuncPrintSegment(cb) => cb is None,
        Hook::FuncPrintDecorator(cb) => cb is None,
        Hook::FuncPrintDisplacement(cb) => cb is None,
        Hook::FuncPrintImmediate(cb) => cb is None,
        Hook::FuncPrintAddress(cb) => cb is None,
    }
}

/// A slot still at the engine default reads back as a default hook: the
/// first replacement of any extension point hands the default marker back.
pub proof fn lemma_default_slot_reads_back_default(h: Hook, raw: RawHook)
    requires
        raw_is_default(raw),
        hook_raw_eq(h, raw),
    ensures
        hook_is_default(h),
{
    match h {
        Hook::FuncPre(_) => {}
        Hook::FuncPost(_) => {}
        Hook::FuncFormatInstruction(_) => {}
        Hook::FuncPrintPrefixes(_) => {}
        Hook::FuncPrintMnemonic(_) => {}
        Hook::FuncFormatOperandReg(_) => {}
        Hook::FuncFormatOperandMem(_) => {}
        Hook::FuncFormatOperandPtr(_) => {}
        Hook::FuncFormatOperandImm(_) => {}
        Hook::FuncPrintOperandsize(_) => {}
        Hook::FuncPrintSegment(_) => {}
        Hook::FuncPrintDecorator(_) => {}
        Hook::FuncPrintDisplacement(_) => {}
        Hook::FuncPrintImmediate(_) => {}
        Hook::FuncPrintAddress(_) => {}
    }
}

} // verus!
