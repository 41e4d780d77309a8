//! Textual instruction formatting: a registry of typed rendering extension
//! points kept behind a type-erased hook table, and a formatter that renders
//! decoded instructions into owned strings through a fixed-capacity scratch
//! buffer. Construction, default rendering, truncation handling and hook
//! replacement all carry proved contracts.

mod buffer;
mod formatter;
mod hooks;
mod instruction;
mod render;
mod status;

pub use buffer::OutputBuffer;
pub use formatter::emit_post;
pub use formatter::flags_valid;
pub use formatter::format_post;
pub use formatter::lemma_format_idempotent;
pub use formatter::lemma_format_overflow_rejected;
pub use formatter::formatters_equivalent;
pub use formatter::fresh_formatter;
pub use formatter::lemma_new_equals_new_ex;
pub use formatter::lemma_replacement_returns_installed;
pub use formatter::Formatter;
pub use formatter::SCRATCH_CAPACITY;
pub use hooks::FormatAddressHook;
pub use hooks::FormatHook;
pub use hooks::FormatOperandHook;
pub use hooks::hook_is_default;
pub use hooks::hook_raw_eq;
pub use hooks::hooks_equivalent;
pub use hooks::lemma_default_slot_reads_back_default;
pub use hooks::lemma_hook_raw_matches;
pub use hooks::lemma_hook_round_trip;
pub use hooks::raw_is_default;
pub use hooks::raw_matches;
pub use hooks::same_raw;
pub use hooks::spec_to_id;
pub use hooks::Hook;
pub use hooks::HookClass;
pub use hooks::HookKind;
pub use hooks::NotifyHook;
pub use hooks::RawHook;
pub use instruction::DecodedInstruction;
pub use instruction::Operand;
pub use render::AddressFormat;
pub use render::DisplacementFormat;
pub use render::FmtConfig;
pub use render::ImmediateFormat;
pub use render::Style;
pub use render::FLAG_FORCE_DISPLACEMENT;
pub use render::FLAG_UPPERCASE_HEX;
pub use render::VALID_FLAGS;
pub use status::Status;
