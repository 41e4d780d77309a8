use vstd::prelude::*;
use vstd::string::StringExecFns;

use crate::instruction::DecodedInstruction;
use crate::instruction::Operand;

verus! {

/// Output style selector: Intel order and brackets, or AT&T prefixes with
/// reversed operand order.
#[derive(Clone, Copy, Debug, PartialEq, Eq, Structural)]
pub enum Style {
    Intel,
    Att,
}

/// How resolved addresses are rendered; `Default` resolves to `Absolute`.
#[derive(Clone, Copy, Debug, PartialEq, Eq, Structural)]
pub enum AddressFormat {
    Default,
    Absolute,
}

/// How memory displacements are rendered; `Default` resolves to `HexSigned`.
#[derive(Clone, Copy, Debug, PartialEq, Eq, Structural)]
pub enum DisplacementFormat {
    Default,
    HexSigned,
    HexUnsigned,
}

/// How immediates are rendered; `Default` resolves to `HexUnsigned`.
#[derive(Clone, Copy, Debug, PartialEq, Eq, Structural)]
pub enum ImmediateFormat {
    Default,
    HexUnsigned,
    HexSigned,
}

/// Always print a memory displacement, a zero one included.
pub const FLAG_FORCE_DISPLACEMENT: u64 = 1;

/// Print hexadecimal digits in upper case.
pub const FLAG_UPPERCASE_HEX: u64 = 2;

/// The flag bits the engine knows; anything outside is rejected at
/// construction.
pub const VALID_FLAGS: u64 = 3;

/// The full configuration one formatter carries.
#[derive(Clone, Copy, Debug, PartialEq, Eq, Structural)]
pub struct FmtConfig {
    pub style: Style,
    pub flags: u64,
    pub address_format: AddressFormat,
    pub displacement_format: DisplacementFormat,
    pub immediate_format: ImmediateFormat,
}

pub open spec fn flag_set(flags: u64, flag: u64) -> bool {
    flags & flag != 0
}

/// One hexadecimal digit character.
pub open spec fn hex_digit(d: nat, upper: bool) -> char {
    if d == 0 {
        '0'
    } else if d == 1 {
        '1'
    } else if d == 2 {
        '2'
    } else if d == 3 {
        '3'
    } else if d == 4 {
        '4'
    } else if d == 5 {
        '5'
    } else if d == 6 {
        '6'
    } else if d == 7 {
        '7'
    } else if d == 8 {
        '8'
    } else if d == 9 {
        '9'
    } else if d == 10 {
        if upper { 'A' } else { 'a' }
    } else if d == 11 {
        if upper { 'B' } else { 'b' }
    } else if d == 12 {
        if upper { 'C' } else { 'c' }
    } else if d == 13 {
        if upper { 'D' } else { 'd' }
    } else if d == 14 {
        if upper { 'E' } else { 'e' }
    } else {
        if upper { 'F' } else { 'f' }
    }
}

/// Minimal hexadecimal rendering of `v`, most significant digit first.
pub open spec fn spec_hex(v: nat, upper: bool) -> Seq<char>
    decreases v,
{
    if v < 16 {
        seq![hex_digit(v, upper)]
    } else {
        spec_hex(v / 16, upper) + seq![hex_digit(v % 16, upper)]
    }
}

/// Hexadecimal rendering of `v` padded with leading zeroes to exactly
/// `width` digits; digits beyond the width are cut from the top.
pub open spec fn spec_hex_pad(v: nat, width: nat, upper: bool) -> Seq<char>
    decreases width,
{
    if width == 0 {
        Seq::empty()
    } else {
        spec_hex_pad(v / 16, (width - 1) as nat, upper) + seq![hex_digit(v % 16, upper)]
    }
}

fn hex_digit_str(d: u64, upper: bool) -> (s: &'static str)
    requires
        d < 16,
    ensures
        s@ == seq![hex_digit(d as nat, upper)],
{
    if upper {
        match d {
            0 => {
                proof { reveal_strlit("0"); }
                "0"
            }
            1 => {
                proof { reveal_strlit("1"); }
                "1"
            }
            2 => {
                proof { reveal_strlit("2"); }
                "2"
            }
            3 => {
                proof { reveal_strlit("3"); }
                "3"
            }
            4 => {
                proof { reveal_strlit("4"); }
                "4"
            }
            5 => {
                proof { reveal_strlit("5"); }
                "5"
            }
            6 => {
                proof { reveal_strlit("6"); }
                "6"
            }
            7 => {
                proof { reveal_strlit("7"); }
                "7"
            }
            8 => {
                proof { reveal_strlit("8"); }
                "8"
            }
            9 => {
                proof { reveal_strlit("9"); }
                "9"
            }
            10 => {
                proof { reveal_strlit("A"); }
                "A"
            }
            11 => {
                proof { reveal_strlit("B"); }
                "B"
            }
            12 => {
                proof { reveal_strlit("C"); }
                "C"
            }
            13 => {
                proof { reveal_strlit("D"); }
                "D"
            }
            14 => {
                proof { reveal_strlit("E"); }
                "E"
            }
            _ => {
                proof { reveal_strlit("F"); }
                "F"
            }
        }
    } else {
        match d {
            0 => {
                proof { reveal_strlit("0"); }
                "0"
            }
            1 => {
                proof { reveal_strlit("1"); }
                "1"
            }
            2 => {
                proof { reveal_strlit("2"); }
                "2"
            }
            3 => {
                proof { reveal_strlit("3"); }
                "3"
            }
            4 => {
                proof { reveal_strlit("4"); }
                "4"
            }
            5 => {
                proof { reveal_strlit("5"); }
                "5"
            }
            6 => {
                proof { reveal_strlit("6"); }
                "6"
            }
            7 => {
                proof { reveal_strlit("7"); }
                "7"
            }
            8 => {
                proof { reveal_strlit("8"); }
                "8"
            }
            9 => {
                proof { reveal_strlit("9"); }
                "9"
            }
            10 => {
                proof { reveal_strlit("a"); }
                "a"
            }
            11 => {
                proof { reveal_strlit("b"); }
                "b"
            }
            12 => {
                proof { reveal_strlit("c"); }
                "c"
            }
            13 => {
                proof { reveal_strlit("d"); }
                "d"
            }
            14 => {
                proof { reveal_strlit("e"); }
                "e"
            }
            _ => {
                proof { reveal_strlit("f"); }
                "f"
            }
        }
    }
}

/// Builds the minimal hexadecimal rendering of `v`.
pub fn hex_string(v: u64, upper: bool) -> (s: String)
    ensures
        s@ == spec_hex(v as nat, upper),
    decreases v,
{
    if v < 16 {
        hex_digit_str(v, upper).to_owned()
    } else {
        let mut s = hex_string(v / 16, upper);
        s.append(hex_digit_str(v % 16, upper));
        proof {
            assert(s@ =~= spec_hex(v as nat, upper));
        }
        s
    }
}

/// Builds the zero-padded hexadecimal rendering of `v`.
pub fn hex_string_pad(v: u64, width: u64, upper: bool) -> (s: String)
    ensures
        s@ == spec_hex_pad(v as nat, width as nat, upper),
    decreases width,
{
    if width == 0 {
        let s = String::new();
        proof {
            assert(s@ =~= spec_hex_pad(v as nat, 0, upper));
        }
        s
    } else {
        let mut s = hex_string_pad(v / 16, width - 1, upper);
        s.append(hex_digit_str(v % 16, upper));
        proof {
            assert(s@ =~= spec_hex_pad(v as nat, width as nat, upper));
        }
        s
    }
}

} // verus!

verus! {

pub open spec fn upper_hex(cfg: FmtConfig) -> bool {
    flag_set(cfg.flags, FLAG_UPPERCASE_HEX)
}

/// `Default` displacement rendering resolves to the signed form.
pub open spec fn disp_signed(cfg: FmtConfig) -> bool {
    cfg.displacement_format != DisplacementFormat::HexUnsigned
}

/// `Default` immediate rendering resolves to the unsigned form.
pub open spec fn imm_signed(cfg: FmtConfig) -> bool {
    cfg.immediate_format == ImmediateFormat::HexSigned
}

/// The two's-complement magnitude of a value whose top bit is set.
pub open spec fn neg_mag(v: u64) -> nat {
    (0x10000000000000000 - v) as nat
}

/// The numeric body of an immediate, sign handling included.
pub open spec fn spec_imm_body(cfg: FmtConfig, v: u64) -> Seq<char> {
    if imm_signed(cfg) && v >= 0x8000000000000000 {
        seq!['-', '0', 'x'] + spec_hex(neg_mag(v), upper_hex(cfg))
    } else {
        seq!['0', 'x'] + spec_hex(v as nat, upper_hex(cfg))
    }
}

/// A whole immediate operand; AT&T style puts `$` in front of the body.
pub open spec fn spec_imm_text(cfg: FmtConfig, v: u64) -> Seq<char> {
    if cfg.style == Style::Att {
        seq!['$'] + spec_imm_body(cfg, v)
    } else {
        spec_imm_body(cfg, v)
    }
}

/// A register operand; AT&T style puts `%` in front of the name.
pub open spec fn spec_reg_text(cfg: FmtConfig, name: Seq<char>) -> Seq<char> {
    if cfg.style == Style::Att {
        seq!['%'] + name
    } else {
        name
    }
}

/// The displacement piece inside an Intel memory operand: nothing for a
/// zero displacement unless forced, otherwise a signed or raw offset.
pub open spec fn spec_disp_text(cfg: FmtConfig, d: u64) -> Seq<char> {
    if d == 0 && !flag_set(cfg.flags, FLAG_FORCE_DISPLACEMENT) {
        Seq::empty()
    } else if disp_signed(cfg) && d >= 0x8000000000000000 {
        seq!['-', '0', 'x'] + spec_hex(neg_mag(d), upper_hex(cfg))
    } else {
        seq!['+', '0', 'x'] + spec_hex(d as nat, upper_hex(cfg))
    }
}

/// The displacement piece before an AT&T memory operand's parentheses; no
/// leading plus sign there.
pub open spec fn spec_disp_text_att(cfg: FmtConfig, d: u64) -> Seq<char> {
    if d == 0 && !flag_set(cfg.flags, FLAG_FORCE_DISPLACEMENT) {
        Seq::empty()
    } else if disp_signed(cfg) && d >= 0x8000000000000000 {
        seq!['-', '0', 'x'] + spec_hex(neg_mag(d), upper_hex(cfg))
    } else {
        seq!['0', 'x'] + spec_hex(d as nat, upper_hex(cfg))
    }
}

/// A whole memory operand.
pub open spec fn spec_mem_text(cfg: FmtConfig, base: Seq<char>, d: u64) -> Seq<char> {
    if cfg.style == Style::Att {
        spec_disp_text_att(cfg, d) + seq!['(', '%'] + base + seq![')']
    } else {
        seq!['['] + base + spec_disp_text(cfg, d) + seq![']']
    }
}

/// A resolved address: absolute, padded to the full sixteen digits.
pub open spec fn spec_addr_text(cfg: FmtConfig, a: u64) -> Seq<char> {
    seq!['0', 'x'] + spec_hex_pad(a as nat, 16, upper_hex(cfg))
}

/// A far-pointer operand: segment, colon, padded offset address.
pub open spec fn spec_ptr_text(cfg: FmtConfig, segment: u64, offset: u64) -> Seq<char> {
    seq!['0', 'x'] + spec_hex(segment as nat, upper_hex(cfg)) + seq![':'] + spec_addr_text(
        cfg,
        offset,
    )
}

/// One rendered operand.
pub open spec fn spec_operand_text(cfg: FmtConfig, op: Operand) -> Seq<char> {
    match op {
        Operand::Register(name) => spec_reg_text(cfg, name@),
        Operand::Immediate(v) => spec_imm_text(cfg, v),
        Operand::Memory { base, displacement } => spec_mem_text(cfg, base@, displacement),
        Operand::Pointer { segment, offset } => spec_ptr_text(cfg, segment, offset),
    }
}

/// Which operand is rendered in position `j`: AT&T style reverses the order.
pub open spec fn op_index(style: Style, n: int, j: int) -> int {
    if style == Style::Att {
        n - 1 - j
    } else {
        j
    }
}

/// The separator in front of the operand rendered in position `k`.
pub open spec fn spec_sep(k: int) -> Seq<char> {
    if k == 0 {
        seq![' ']
    } else {
        seq![',', ' ']
    }
}

/// The rendered text of the first `j` operand positions, separators
/// included.
pub open spec fn spec_ops_prefix(cfg: FmtConfig, ops: Seq<Operand>, j: int) -> Seq<char>
    decreases j,
{
    if j <= 0 {
        Seq::empty()
    } else {
        spec_ops_prefix(cfg, ops, j - 1) + spec_sep(j - 1) + spec_operand_text(
            cfg,
            ops[op_index(cfg.style, ops.len() as int, j - 1)],
        )
    }
}

/// The full default rendering of one instruction: the mnemonic, then the
/// operands in style order.
pub open spec fn spec_render(cfg: FmtConfig, instr: DecodedInstruction) -> Seq<char> {
    instr.mnemonic@ + spec_ops_prefix(cfg, instr.operands@, instr.operands@.len() as int)
}

/// A shorter operand prefix never renders longer text than a longer one.
pub proof fn lemma_ops_prefix_mono(cfg: FmtConfig, ops: Seq<Operand>, i: int, j: int)
    requires
        i <= j,
    ensures
        spec_ops_prefix(cfg, ops, i).len() <= spec_ops_prefix(cfg, ops, j).len(),
    decreases j - i,
{
    if i < j {
        lemma_ops_prefix_mono(cfg, ops, i, j - 1);
    }
}

pub(crate) fn upper_hex_exec(cfg: &FmtConfig) -> (r: bool)
    ensures
        r == upper_hex(*cfg),
{
    cfg.flags & FLAG_UPPERCASE_HEX != 0
}

/// Builds the numeric body of an immediate.
pub fn imm_body_text(cfg: &FmtConfig, v: u64) -> (s: String)
    ensures
        s@ == spec_imm_body(*cfg, v),
{
    let upper = upper_hex_exec(cfg);
    let signed = match cfg.immediate_format {
        ImmediateFormat::HexSigned => true,
        _ => false,
    };
    let mut s: String;
    if signed && v >= 0x8000000000000000 {
        let mag = u64::MAX - v + 1;
        s = String::from_str("-0x");
        proof { reveal_strlit("-0x"); }
        s.append(hex_string(mag, upper).as_str());
        proof {
            assert(s@ =~= spec_imm_body(*cfg, v));
        }
    } else {
        s = String::from_str("0x");
        proof { reveal_strlit("0x"); }
        s.append(hex_string(v, upper).as_str());
        proof {
            assert(s@ =~= spec_imm_body(*cfg, v));
        }
    }
    s
}

/// Builds a register operand's text.
pub fn reg_text(cfg: &FmtConfig, name: &String) -> (s: String)
    ensures
        s@ == spec_reg_text(*cfg, name@),
{
    if cfg.style == Style::Att {
        let mut s = String::from_str("%");
        proof { reveal_strlit("%"); }
        s.append(name.as_str());
        proof {
            assert(s@ =~= spec_reg_text(*cfg, name@));
        }
        s
    } else {
        let s = name.clone();
        proof {
            assert(s@ =~= spec_reg_text(*cfg, name@));
        }
        s
    }
}

/// Builds the displacement piece of a memory operand, in the form the
/// configured style asks for.
pub fn disp_text(cfg: &FmtConfig, d: u64) -> (s: String)
    ensures
        cfg.style == Style::Att ==> s@ == spec_disp_text_att(*cfg, d),
        cfg.style != Style::Att ==> s@ == spec_disp_text(*cfg, d),
{
    let upper = upper_hex_exec(cfg);
    let signed = match cfg.displacement_format {
        DisplacementFormat::HexUnsigned => false,
        _ => true,
    };
    if d == 0 && cfg.flags & FLAG_FORCE_DISPLACEMENT == 0 {
        let s = String::new();
        proof {
            assert(s@ =~= Seq::<char>::empty());
        }
        s
    } else if signed && d >= 0x8000000000000000 {
        let mag = u64::MAX - d + 1;
        let mut s = String::from_str("-0x");
        proof { reveal_strlit("-0x"); }
        s.append(hex_string(mag, upper).as_str());
        proof {
            assert(s@ =~= seq!['-', '0', 'x'] + spec_hex(neg_mag(d), upper_hex(*cfg)));
        }
        s
    } else if cfg.style == Style::Att {
        let mut s = String::from_str("0x");
        proof { reveal_strlit("0x"); }
        s.append(hex_string(d, upper).as_str());
        proof {
            assert(s@ =~= seq!['0', 'x'] + spec_hex(d as nat, upper_hex(*cfg)));
        }
        s
    } else {
        let mut s = String::from_str("+0x");
        proof { reveal_strlit("+0x"); }
        s.append(hex_string(d, upper).as_str());
        proof {
            assert(s@ =~= seq!['+', '0', 'x'] + spec_hex(d as nat, upper_hex(*cfg)));
        }
        s
    }
}

/// Builds a resolved address: absolute, padded to sixteen digits.
pub fn addr_text(cfg: &FmtConfig, a: u64) -> (s: String)
    ensures
        s@ == spec_addr_text(*cfg, a),
{
    let upper = upper_hex_exec(cfg);
    let mut s = String::from_str("0x");
    proof { reveal_strlit("0x"); }
    s.append(hex_string_pad(a, 16, upper).as_str());
    proof {
        assert(s@ =~= spec_addr_text(*cfg, a));
    }
    s
}

} // verus!
