use vstd::prelude::*;

verus! {

pub type Register = u8;

pub type Address = u16;

pub type Value = u8;

/// One decoded operation of the machine, with the operand fields taken out
/// of the instruction word.
#[derive(Debug, Clone, Copy, PartialEq, Eq, Structural)]
pub enum Instruction {
    Clear,
    Return,
    ExRoutine(Address),
    Jump(Address),
    Call(Address),
    SkipIfEqual(Register, Value),
    SkipIfNotEqual(Register, Value),
    SkipIfRegEqual(Register, Register),
    LoadVal(Register, Value),
    AddVal(Register, Value),
    LoadReg(Register, Register),
    Or(Register, Register),
    And(Register, Register),
    Xor(Register, Register),
    AddReg(Register, Register),
    SubReg(Register, Register),
    ShiftRight(Register),
    ShiftLeft(Register),
    SetIndexRegister(Address),
    Random(Register, Value),
    Draw(Register, Register, Value),
    SkipIfKey(Register),
    SkipIfNotKey(Register),
    AddIndex(Register),
    LoadDigit(Register),
    LoadBCD(Register),
    StoreIndex(Register),
    ReadIndex(Register),
    InvalidOperation,
}

/// Bits 12-15: the family of the instruction.
pub open spec fn family_of(val: u16) -> u16 {
    val >> 12
}

/// Bits 8-11: the first register operand.
pub open spec fn reg1_of(val: u16) -> u8 {
    ((val >> 8) & 0xF) as u8
}

/// Bits 4-7: the second register operand.
pub open spec fn reg2_of(val: u16) -> u8 {
    ((val >> 4) & 0xF) as u8
}

/// Bits 0-7: the immediate byte.
pub open spec fn byte_of(val: u16) -> u8 {
    (val & 0xFF) as u8
}

/// Bits 0-3: the small immediate.
pub open spec fn nibble_of(val: u16) -> u8 {
    (val & 0xF) as u8
}

/// Bits 0-11: the address operand.
pub open spec fn addr_of(val: u16) -> u16 {
    val & 0xFFF
}

/// The operation that an instruction word stands for; any pattern that
/// names no operation is `InvalidOperation`.
pub open spec fn decode(val: u16) -> Instruction {
    let x = reg1_of(val);
    let y = reg2_of(val);
    let kk = byte_of(val);
    let n = nibble_of(val);
    let nnn = addr_of(val);
    let family = family_of(val);
    if family == 0x0 {
        if nnn == 0x0E0 {
            Instruction::Clear
        } else if nnn == 0x0EE {
            Instruction::Return
        } else {
            Instruction::ExRoutine(nnn)
        }
    } else if family == 0x1 {
        Instruction::Jump(nnn)
    } else if family == 0x2 {
        Instruction::Call(nnn)
    } else if family == 0x3 {
        Instruction::SkipIfEqual(x, kk)
    } else if family == 0x4 {
        Instruction::SkipIfNotEqual(x, kk)
    } else if family == 0x5 {
        if n == 0x0 {
            Instruction::SkipIfRegEqual(x, y)
        } else {
            Instruction::InvalidOperation
        }
    } else if family == 0x6 {
        Instruction::LoadVal(x, kk)
    } else if family == 0x7 {
        Instruction::AddVal(x, kk)
    } else if family == 0x8 {
        if n == 0x0 {
            Instruction::LoadReg(x, y)
        } else if n == 0x1 {
            Instruction::Or(x, y)
        } else if n == 0x2 {
            Instruction::And(x, y)
        } else if n == 0x3 {
            Instruction::Xor(x, y)
        } else if n == 0x4 {
            Instruction::AddReg(x, y)
        } else if n == 0x5 {
            Instruction::SubReg(x, y)
        } else if n == 0x6 {
            Instruction::ShiftRight(x)
        } else if n == 0xE {
            Instruction::ShiftLeft(x)
        } else {
            Instruction::InvalidOperation
        }
    } else if family == 0xA {
        Instruction::SetIndexRegister(nnn)
    } else if family == 0xC {
        Instruction::Random(x, kk)
    } else if family == 0xD {
        Instruction::Draw(x, y, n)
    } else if family == 0xE {
        if kk == 0x9E {
            Instruction::SkipIfKey(x)
        } else if kk == 0xA1 {
            Instruction::SkipIfNotKey(x)
        } else {
            Instruction::InvalidOperation
        }
    } else if family == 0xF {
        if kk == 0x1E {
            Instruction::AddIndex(x)
        } else if kk == 0x29 {
            Instruction::LoadDigit(x)
        } else if kk == 0x33 {
            Instruction::LoadBCD(x)
        } else if kk == 0x55 {
            Instruction::StoreIndex(x)
        } else if kk == 0x65 {
            Instruction::ReadIndex(x)
        } else {
            Instruction::InvalidOperation
        }
    } else {
        Instruction::InvalidOperation
    }
}

/// Every register operand that the decoder hands out names one of the
/// sixteen registers.
pub open spec fn registers_in_range(i: Instruction) -> bool {
    match i {
        Instruction::SkipIfEqual(r, _) => r < 16,
        Instruction::SkipIfNotEqual(r, _) => r < 16,
        Instruction::SkipIfRegEqual(r1, r2) => r1 < 16 && r2 < 16,
        Instruction::LoadVal(r, _) => r < 16,
        Instruction::AddVal(r, _) => r < 16,
        Instruction::LoadReg(r1, r2) => r1 < 16 && r2 < 16,
        Instruction::Or(r1, r2) => r1 < 16 && r2 < 16,
        Instruction::And(r1, r2) => r1 < 16 && r2 < 16,
        Instruction::Xor(r1, r2) => r1 < 16 && r2 < 16,
        Instruction::AddReg(r1, r2) => r1 < 16 && r2 < 16,
        Instruction::SubReg(r1, r2) => r1 < 16 && r2 < 16,
        Instruction::ShiftRight(r) => r < 16,
        Instruction::ShiftLeft(r) => r < 16,
        Instruction::Random(r, _) => r < 16,
        Instruction::Draw(r1, r2, n) => r1 < 16 && r2 < 16 && n < 16,
        Instruction::SkipIfKey(r) => r < 16,
        Instruction::SkipIfNotKey(r) => r < 16,
        Instruction::AddIndex(r) => r < 16,
        Instruction::LoadDigit(r) => r < 16,
        Instruction::LoadBCD(r) => r < 16,
        Instruction::StoreIndex(r) => r < 16,
        Instruction::ReadIndex(r) => r < 16,
        _ => true,
    }
}

/// The decoded operands always fit their fields.
pub proof fn lemma_decode_operands_in_range(val: u16)
    ensures
        registers_in_range(decode(val)),
        decode(val) matches Instruction::ExRoutine(a) ==> a < 0x1000,
        decode(val) matches Instruction::Jump(a) ==> a < 0x1000,
        decode(val) matches Instruction::Call(a) ==> a < 0x1000,
        decode(val) matches Instruction::SetIndexRegister(a) ==> a < 0x1000,
{
    assert(((val >> 8) & 0xF) < 16 && ((val >> 4) & 0xF) < 16 && (val & 0xF) < 16 && (val & 0xFFF)
        < 0x1000) by (bit_vector);
}

impl Instruction {
    /// Decodes one 16-bit instruction word. Every word decodes to exactly
    /// one operation.
    pub fn parse(val: u16) -> (r: Instruction)
        ensures
            r == decode(val),
    {
        let family = val >> 12;
        match family {
            0x0 => match addr(val) {
                0x0E0 => Instruction::Clear,
                0x0EE => Instruction::Return,
                _ => Instruction::ExRoutine(addr(val)),
            },
            0x1 => Instruction::Jump(addr(val)),
            0x2 => Instruction::Call(addr(val)),
            0x3 => Instruction::SkipIfEqual(reg1(val), byte(val)),
            0x4 => Instruction::SkipIfNotEqual(reg1(val), byte(val)),
            0x5 => match nibble(val) {
                0x0 => Instruction::SkipIfRegEqual(reg1(val), reg2(val)),
                _ => Instruction::InvalidOperation,
            },
            0x6 => Instruction::LoadVal(reg1(val), byte(val)),
            0x7 => Instruction::AddVal(reg1(val), byte(val)),
            0x8 => match nibble(val) {
                0x0 => Instruction::LoadReg(reg1(val), reg2(val)),
                0x1 => Instruction::Or(reg1(val), reg2(val)),
                0x2 => Instruction::And(reg1(val), reg2(val)),
                0x3 => Instruction::Xor(reg1(val), reg2(val)),
                0x4 => Instruction::AddReg(reg1(val), reg2(val)),
                0x5 => Instruction::SubReg(reg1(val), reg2(val)),
                0x6 => Instruction::ShiftRight(reg1(val)),
                0xE => Instruction::ShiftLeft(reg1(val)),
                _ => Instruction::InvalidOperation,
            },
            0xA => Instruction::SetIndexRegister(addr(val)),
            0xC => Instruction::Random(reg1(val), byte(val)),
            0xD => Instruction::Draw(reg1(val), reg2(val), nibble(val)),
            0xE => match byte(val) {
                0x9E => Instruction::SkipIfKey(reg1(val)),
                0xA1 => Instruction::SkipIfNotKey(reg1(val)),
                _ => Instruction::InvalidOperation,
            },
            0xF => match byte(val) {
                0x1E => Instruction::AddIndex(reg1(val)),
                0x29 => Instruction::LoadDigit(reg1(val)),
                0x33 => Instruction::LoadBCD(reg1(val)),
                0x55 => Instruction::StoreIndex(reg1(val)),
                0x65 => Instruction::ReadIndex(reg1(val)),
                _ => Instruction::InvalidOperation,
            },
            _ => Instruction::InvalidOperation,
        }
    }
}

/// The digits of base sixteen, in upper case.
pub const HEX_DIGITS: [char; 16] = [
    '0', '1', '2', '3', '4', '5', '6', '7', '8', '9', 'A', 'B', 'C', 'D', 'E', 'F',
];

/// `n` in upper-case hexadecimal, without leading zeros.
pub open spec fn hex_text(n: nat) -> Seq<char>
    decreases n,
{
    if n < 16 {
        seq![HEX_DIGITS@[n as int]]
    } else {
        hex_text(n / 16) + seq![HEX_DIGITS@[(n % 16) as int]]
    }
}

/// `n` in decimal, without leading zeros.
pub open spec fn decimal_text(n: nat) -> Seq<char>
    decreases n,
{
    if n < 10 {
        seq![HEX_DIGITS@[n as int]]
    } else {
        decimal_text(n / 10) + seq![HEX_DIGITS@[(n % 10) as int]]
    }
}

/// A register as the assembler writes it: `V` and its number in hexadecimal.
pub open spec fn reg_text(r: u8) -> Seq<char> {
    "V"@ + hex_text(r as nat)
}

/// The assembler mnemonic of an operation.
pub open spec fn mnemonic_text(i: Instruction) -> Seq<char> {
    match i {
        Instruction::Clear => "CLS"@,
        Instruction::Return => "RET"@,
        Instruction::ExRoutine(a) => "SYS 0x"@ + hex_text(a as nat),
        Instruction::Jump(a) => "JP 0x"@ + hex_text(a as nat),
        Instruction::Call(a) => "CALL 0x"@ + hex_text(a as nat),
        Instruction::SkipIfEqual(r, v) => "SE "@ + reg_text(r) + ", "@ + decimal_text(v as nat),
        Instruction::SkipIfNotEqual(r, v) => "SNE "@ + reg_text(r) + ", "@ + decimal_text(
            v as nat,
        ),
        Instruction::SkipIfRegEqual(r1, r2) => "SE "@ + reg_text(r1) + ", "@ + reg_text(r2),
        Instruction::LoadVal(r, v) => "LD "@ + reg_text(r) + ", "@ + decimal_text(v as nat),
        Instruction::AddVal(r, v) => "ADD "@ + reg_text(r) + ", "@ + decimal_text(v as nat),
        Instruction::LoadReg(r1, r2) => "LD "@ + reg_text(r1) + ", "@ + reg_text(r2),
        Instruction::Or(r1, r2) => "OR "@ + reg_text(r1) + ", "@ + reg_text(r2),
        Instruction::And(r1, r2) => "AND "@ + reg_text(r1) + ", "@ + reg_text(r2),
        Instruction::Xor(r1, r2) => "XOR "@ + reg_text(r1) + ", "@ + reg_text(r2),
        Instruction::AddReg(r1, r2) => "ADD "@ + reg_text(r1) + ", "@ + reg_text(r2),
        Instruction::SubReg(r1, r2) => "SUB "@ + reg_text(r1) + ", "@ + reg_text(r2),
        Instruction::ShiftRight(r) => "SHR "@ + reg_text(r),
        Instruction::ShiftLeft(r) => "SHL "@ + reg_text(r),
        Instruction::SetIndexRegister(a) => "LD I, 0x"@ + hex_text(a as nat),
        Instruction::Random(r, v) => "RND "@ + reg_text(r) + ", "@ + decimal_text(v as nat),
        Instruction::Draw(r1, r2, n) => "DRW "@ + reg_text(r1) + ", "@ + reg_text(r2) + ", "@
            + decimal_text(n as nat),
        Instruction::SkipIfKey(r) => "SKP "@ + reg_text(r),
        Instruction::SkipIfNotKey(r) => "SKNP "@ + reg_text(r),
        Instruction::AddIndex(r) => "ADD I, "@ + reg_text(r),
        Instruction::LoadDigit(r) => "LD F, "@ + reg_text(r),
        Instruction::LoadBCD(r) => "LD B, "@ + reg_text(r),
        Instruction::StoreIndex(r) => "LD [I], "@ + reg_text(r),
        Instruction::ReadIndex(r) => "LD "@ + reg_text(r) + " [I]"@,
        Instruction::InvalidOperation => "INVALID OPERATION"@,
    }
}

/// Relies on `String`'s `FromIterator<char>`: collecting chars gives the
/// string of exactly those chars, in order.
#[verifier::external_body]
fn string_of_chars(chars: &Vec<char>) -> (r: String)
    ensures
        r@ == chars@,
{
    chars.iter().collect()
}

fn push_text(out: &mut Vec<char>, s: &str)
    ensures
        final(out)@ == old(out)@ + s@,
{
    let ghost start = out@;
    for ch in it: s.chars()
        invariant
            out@ == start + it.seq().take(it.index() as int),
    {
        out.push(ch);
    }
    assert(out@ =~= start + s@);
}

fn push_hex(out: &mut Vec<char>, n: u16)
    ensures
        final(out)@ == old(out)@ + hex_text(n as nat),
    decreases n,
{
    let ghost start = out@;
    if n >= 16 {
        push_hex(out, n / 16);
    }
    out.push(HEX_DIGITS[(n % 16) as usize]);
    assert(out@ =~= start + hex_text(n as nat));
}

fn push_decimal(out: &mut Vec<char>, n: u8)
    ensures
        final(out)@ == old(out)@ + decimal_text(n as nat),
    decreases n,
{
    let ghost start = out@;
    if n >= 10 {
        push_decimal(out, n / 10);
    }
    out.push(HEX_DIGITS[(n % 10) as usize]);
    assert(out@ =~= start + decimal_text(n as nat));
}

fn push_register(out: &mut Vec<char>, r: u8)
    ensures
        final(out)@ == old(out)@ + reg_text(r),
{
    let ghost start = out@;
    push_text(out, "V");
    push_hex(out, r as u16);
    assert(out@ =~= start + reg_text(r));
}

impl Instruction {
    /// The assembler mnemonic of the operation, as the diagnostic output
    /// shows it (`LD V0, 5`, `JP 0x200`).
    pub fn mnemonic(&self) -> (r: String)
        ensures
            r@ == mnemonic_text(*self),
    {
        let mut out: Vec<char> = Vec::new();
        match *self {
            Instruction::Clear => push_text(&mut out, "CLS"),
            Instruction::Return => push_text(&mut out, "RET"),
            Instruction::ExRoutine(a) => {
                push_text(&mut out, "SYS 0x");
                push_hex(&mut out, a);
            },
            Instruction::Jump(a) => {
                push_text(&mut out, "JP 0x");
                push_hex(&mut out, a);
            },
            Instruction::Call(a) => {
                push_text(&mut out, "CALL 0x");
                push_hex(&mut out, a);
            },
            Instruction::SkipIfEqual(r, v) => push_register_value(&mut out, "SE ", r, v),
            Instruction::SkipIfNotEqual(r, v) => push_register_value(&mut out, "SNE ", r, v),
            Instruction::SkipIfRegEqual(r1, r2) => push_two_registers(&mut out, "SE ", r1, r2),
            Instruction::LoadVal(r, v) => push_register_value(&mut out, "LD ", r, v),
            Instruction::AddVal(r, v) => push_register_value(&mut out, "ADD ", r, v),
            Instruction::LoadReg(r1, r2) => push_two_registers(&mut out, "LD ", r1, r2),
            Instruction::Or(r1, r2) => push_two_registers(&mut out, "OR ", r1, r2),
            Instruction::And(r1, r2) => push_two_registers(&mut out, "AND ", r1, r2),
            Instruction::Xor(r1, r2) => push_two_registers(&mut out, "XOR ", r1, r2),
            Instruction::AddReg(r1, r2) => push_two_registers(&mut out, "ADD ", r1, r2),
            Instruction::SubReg(r1, r2) => push_two_registers(&mut out, "SUB ", r1, r2),
            Instruction::ShiftRight(r) => push_one_register(&mut out, "SHR ", r),
            Instruction::ShiftLeft(r) => push_one_register(&mut out, "SHL ", r),
            Instruction::SetIndexRegister(a) => {
                push_text(&mut out, "LD I, 0x");
                push_hex(&mut out, a);
            },
            Instruction::Random(r, v) => push_register_value(&mut out, "RND ", r, v),
            Instruction::Draw(r1, r2, n) => {
                push_two_registers(&mut out, "DRW ", r1, r2);
                let ghost before = out@;
                push_text(&mut out, ", ");
                push_decimal(&mut out, n);
                assert(out@ =~= before + ", "@ + decimal_text(n as nat));
            },
            Instruction::SkipIfKey(r) => push_one_register(&mut out, "SKP ", r),
            Instruction::SkipIfNotKey(r) => push_one_register(&mut out, "SKNP ", r),
            Instruction::AddIndex(r) => push_one_register(&mut out, "ADD I, ", r),
            Instruction::LoadDigit(r) => push_one_register(&mut out, "LD F, ", r),
            Instruction::LoadBCD(r) => push_one_register(&mut out, "LD B, ", r),
            Instruction::StoreIndex(r) => push_one_register(&mut out, "LD [I], ", r),
            Instruction::ReadIndex(r) => {
                push_one_register(&mut out, "LD ", r);
                push_text(&mut out, " [I]");
            },
            Instruction::InvalidOperation => push_text(&mut out, "INVALID OPERATION"),
        }
        assert(out@ =~= mnemonic_text(*self));
        string_of_chars(&out)
    }
}

fn push_one_register(out: &mut Vec<char>, name: &str, r: u8)
    ensures
        final(out)@ == old(out)@ + name@ + reg_text(r),
{
    push_text(out, name);
    push_register(out, r);
}

fn push_two_registers(out: &mut Vec<char>, name: &str, r1: u8, r2: u8)
    ensures
        final(out)@ == old(out)@ + name@ + reg_text(r1) + ", "@ + reg_text(r2),
{
    push_one_register(out, name, r1);
    push_text(out, ", ");
    push_register(out, r2);
}

fn push_register_value(out: &mut Vec<char>, name: &str, r: u8, v: u8)
    ensures
        final(out)@ == old(out)@ + name@ + reg_text(r) + ", "@ + decimal_text(v as nat),
{
    push_one_register(out, name, r);
    push_text(out, ", ");
    push_decimal(out, v);
}

fn reg1(val: u16) -> (r: u8)
    ensures
        r == reg1_of(val),
        r < 16,
{
    assert(((val >> 8) & 0xF) < 16) by (bit_vector);
    ((val >> 8) & 0xF) as u8
}

fn reg2(val: u16) -> (r: u8)
    ensures
        r == reg2_of(val),
        r < 16,
{
    assert(((val >> 4) & 0xF) < 16) by (bit_vector);
    ((val >> 4) & 0xF) as u8
}

fn byte(val: u16) -> (r: u8)
    ensures
        r == byte_of(val),
{
    (val & 0xFF) as u8
}

fn nibble(val: u16) -> (r: u8)
    ensures
        r == nibble_of(val),
        r < 16,
{
    assert((val & 0xF) < 16) by (bit_vector);
    (val & 0xF) as u8
}

fn addr(val: u16) -> (r: u16)
    ensures
        r == addr_of(val),
        r < 0x1000,
{
    assert((val & 0xFFF) < 0x1000) by (bit_vector);
    val & 0xFFF
}

} // verus!
