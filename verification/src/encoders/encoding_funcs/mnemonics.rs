//! The mnemonics of the instructions that the crate encodes.
use vstd::prelude::*;

use crate::generator::text::equals;

verus! {

/// A text is the mnemonic of no instruction that the crate encodes.
#[derive(Debug, Clone, Copy, PartialEq, Eq, Structural, Hash)]
pub struct InvalidMnemonicError;

/// The instructions that the crate encodes, in the order of their
/// mnemonics.
#[derive(Debug, Clone, Copy, PartialEq, Eq, Structural, Hash)]
#[must_use]
pub enum Mnemonic {
    Add,
    Call,
    Cmp,
    Cpuid,
    Int,
    Int1,
    Int3,
    Jcc,
    Jmp,
    Lea,
    Lock,
    Mov,
    Nop,
    Pop,
    Push,
    Ret,
    Xor,
}

impl Mnemonic {
    /// The mnemonic as assembly writes it.
    pub open spec fn name(self) -> Seq<char> {
        match self {
            Mnemonic::Add => "add"@,
            Mnemonic::Call => "call"@,
            Mnemonic::Cmp => "cmp"@,
            Mnemonic::Cpuid => "cpuid"@,
            Mnemonic::Int => "int"@,
            Mnemonic::Int1 => "int1"@,
            Mnemonic::Int3 => "int3"@,
            Mnemonic::Jcc => "jcc"@,
            Mnemonic::Jmp => "jmp"@,
            Mnemonic::Lea => "lea"@,
            Mnemonic::Lock => "lock"@,
            Mnemonic::Mov => "mov"@,
            Mnemonic::Nop => "nop"@,
            Mnemonic::Pop => "pop"@,
            Mnemonic::Push => "push"@,
            Mnemonic::Ret => "ret"@,
            Mnemonic::Xor => "xor"@,
        }
    }

    /// The instruction with the given mnemonic.
    pub open spec fn parse(text: Seq<char>) -> Option<Mnemonic> {
        if text == "add"@ {
            Some(Mnemonic::Add)
        } else if text == "call"@ {
            Some(Mnemonic::Call)
        } else if text == "cmp"@ {
            Some(Mnemonic::Cmp)
        } else if text == "cpuid"@ {
            Some(Mnemonic::Cpuid)
        } else if text == "int"@ {
            Some(Mnemonic::Int)
        } else if text == "int1"@ {
            Some(Mnemonic::Int1)
        } else if text == "int3"@ {
            Some(Mnemonic::Int3)
        } else if text == "jcc"@ {
            Some(Mnemonic::Jcc)
        } else if text == "jmp"@ {
            Some(Mnemonic::Jmp)
        } else if text == "lea"@ {
            Some(Mnemonic::Lea)
        } else if text == "lock"@ {
            Some(Mnemonic::Lock)
        } else if text == "mov"@ {
            Some(Mnemonic::Mov)
        } else if text == "nop"@ {
            Some(Mnemonic::Nop)
        } else if text == "pop"@ {
            Some(Mnemonic::Pop)
        } else if text == "push"@ {
            Some(Mnemonic::Push)
        } else if text == "ret"@ {
            Some(Mnemonic::Ret)
        } else if text == "xor"@ {
            Some(Mnemonic::Xor)
        } else {
            None
        }
    }

    /// The place of the instruction among the mnemonics, counted from one.
    pub open spec fn number(self) -> u8 {
        match self {
            Mnemonic::Add => 1,
            Mnemonic::Call => 2,
            Mnemonic::Cmp => 3,
            Mnemonic::Cpuid => 4,
            Mnemonic::Int => 5,
            Mnemonic::Int1 => 6,
            Mnemonic::Int3 => 7,
            Mnemonic::Jcc => 8,
            Mnemonic::Jmp => 9,
            Mnemonic::Lea => 10,
            Mnemonic::Lock => 11,
            Mnemonic::Mov => 12,
            Mnemonic::Nop => 13,
            Mnemonic::Pop => 14,
            Mnemonic::Push => 15,
            Mnemonic::Ret => 16,
            Mnemonic::Xor => 17,
        }
    }

    #[must_use]
    pub fn as_u8(self) -> (number: u8)
        ensures
            number == self.number(),
            1 <= number <= 17,
    {
        match self {
            Mnemonic::Add => 1,
            Mnemonic::Call => 2,
            Mnemonic::Cmp => 3,
            Mnemonic::Cpuid => 4,
            Mnemonic::Int => 5,
            Mnemonic::Int1 => 6,
            Mnemonic::Int3 => 7,
            Mnemonic::Jcc => 8,
            Mnemonic::Jmp => 9,
            Mnemonic::Lea => 10,
            Mnemonic::Lock => 11,
            Mnemonic::Mov => 12,
            Mnemonic::Nop => 13,
            Mnemonic::Pop => 14,
            Mnemonic::Push => 15,
            Mnemonic::Ret => 16,
            Mnemonic::Xor => 17,
        }
    }

    /// The mnemonic as assembly writes it.
    #[must_use]
    pub fn as_str(self) -> (text: &'static str)
        ensures
            text@ == self.name(),
    {
        match self {
            Mnemonic::Add => "add",
            Mnemonic::Call => "call",
            Mnemonic::Cmp => "cmp",
            Mnemonic::Cpuid => "cpuid",
            Mnemonic::Int => "int",
            Mnemonic::Int1 => "int1",
            Mnemonic::Int3 => "int3",
            Mnemonic::Jcc => "jcc",
            Mnemonic::Jmp => "jmp",
            Mnemonic::Lea => "lea",
            Mnemonic::Lock => "lock",
            Mnemonic::Mov => "mov",
            Mnemonic::Nop => "nop",
            Mnemonic::Pop => "pop",
            Mnemonic::Push => "push",
            Mnemonic::Ret => "ret",
            Mnemonic::Xor => "xor",
        }
    }

    /// The instruction with the given mnemonic, if the crate encodes one.
    pub fn from_str(text: &str) -> (result: Result<Self, InvalidMnemonicError>)
        ensures
            result is Ok <==> Mnemonic::parse(text@) is Some,
            result matches Ok(mnemonic) ==> Mnemonic::parse(text@) == Some(mnemonic),
    {
        if equals(text, "add") {
            Ok(Mnemonic::Add)
        } else if equals(text, "call") {
            Ok(Mnemonic::Call)
        } else if equals(text, "cmp") {
            Ok(Mnemonic::Cmp)
        } else if equals(text, "cpuid") {
            Ok(Mnemonic::Cpuid)
        } else if equals(text, "int") {
            Ok(Mnemonic::Int)
        } else if equals(text, "int1") {
            Ok(Mnemonic::Int1)
        } else if equals(text, "int3") {
            Ok(Mnemonic::Int3)
        } else if equals(text, "jcc") {
            Ok(Mnemonic::Jcc)
        } else if equals(text, "jmp") {
            Ok(Mnemonic::Jmp)
        } else if equals(text, "lea") {
            Ok(Mnemonic::Lea)
        } else if equals(text, "lock") {
            Ok(Mnemonic::Lock)
        } else if equals(text, "mov") {
            Ok(Mnemonic::Mov)
        } else if equals(text, "nop") {
            Ok(Mnemonic::Nop)
        } else if equals(text, "pop") {
            Ok(Mnemonic::Pop)
        } else if equals(text, "push") {
            Ok(Mnemonic::Push)
        } else if equals(text, "ret") {
            Ok(Mnemonic::Ret)
        } else if equals(text, "xor") {
            Ok(Mnemonic::Xor)
        } else {
            Err(InvalidMnemonicError)
        }
    }

    /// Every instruction is found again by its mnemonic, and by nothing
    /// else: a text stands for an instruction exactly when it is the
    /// mnemonic of that instruction.
    pub proof fn lemma_mnemonic_round_trip(self, text: Seq<char>)
        ensures
            Mnemonic::parse(self.name()) == Some(self),
            Mnemonic::parse(text) == Some(self) <==> text == self.name(),
    {
        reveal_strlit("add");
        reveal_strlit("call");
        reveal_strlit("cmp");
        reveal_strlit("cpuid");
        reveal_strlit("int");
        reveal_strlit("int1");
        reveal_strlit("int3");
        reveal_strlit("jcc");
        reveal_strlit("jmp");
        reveal_strlit("lea");
        reveal_strlit("lock");
        reveal_strlit("mov");
        reveal_strlit("nop");
        reveal_strlit("pop");
        reveal_strlit("push");
        reveal_strlit("ret");
        reveal_strlit("xor");
        assert("add"@.len() == 3);
        assert("add"@[0] == 'a');
        assert("add"@[1] == 'd');
        assert("add"@[2] == 'd');
        assert("call"@.len() == 4);
        assert("call"@[0] == 'c');
        assert("call"@[1] == 'a');
        assert("call"@[2] == 'l');
        assert("call"@[3] == 'l');
        assert("cmp"@.len() == 3);
        assert("cmp"@[0] == 'c');
        assert("cmp"@[1] == 'm');
        assert("cmp"@[2] == 'p');
        assert("cpuid"@.len() == 5);
        assert("cpuid"@[0] == 'c');
        assert("cpuid"@[1] == 'p');
        assert("cpuid"@[2] == 'u');
        assert("cpuid"@[3] == 'i');
        assert("cpuid"@[4] == 'd');
        assert("int"@.len() == 3);
        assert("int"@[0] == 'i');
        assert("int"@[1] == 'n');
        assert("int"@[2] == 't');
        assert("int1"@.len() == 4);
        assert("int1"@[0] == 'i');
        assert("int1"@[1] == 'n');
        assert("int1"@[2] == 't');
        assert("int1"@[3] == '1');
        assert("int3"@.len() == 4);
        assert("int3"@[0] == 'i');
        assert("int3"@[1] == 'n');
        assert("int3"@[2] == 't');
        assert("int3"@[3] == '3');
        assert("jcc"@.len() == 3);
        assert("jcc"@[0] == 'j');
        assert("jcc"@[1] == 'c');
        assert("jcc"@[2] == 'c');
        assert("jmp"@.len() == 3);
        assert("jmp"@[0] == 'j');
        assert("jmp"@[1] == 'm');
        assert("jmp"@[2] == 'p');
        assert("lea"@.len() == 3);
        assert("lea"@[0] == 'l');
        assert("lea"@[1] == 'e');
        assert("lea"@[2] == 'a');
        assert("lock"@.len() == 4);
        assert("lock"@[0] == 'l');
        assert("lock"@[1] == 'o');
        assert("lock"@[2] == 'c');
        assert("lock"@[3] == 'k');
        assert("mov"@.len() == 3);
        assert("mov"@[0] == 'm');
        assert("mov"@[1] == 'o');
        assert("mov"@[2] == 'v');
        assert("nop"@.len() == 3);
        assert("nop"@[0] == 'n');
        assert("nop"@[1] == 'o');
        assert("nop"@[2] == 'p');
        assert("pop"@.len() == 3);
        assert("pop"@[0] == 'p');
        assert("pop"@[1] == 'o');
        assert("pop"@[2] == 'p');
        assert("push"@.len() == 4);
        assert("push"@[0] == 'p');
        assert("push"@[1] == 'u');
        assert("push"@[2] == 's');
        assert("push"@[3] == 'h');
        assert("ret"@.len() == 3);
        assert("ret"@[0] == 'r');
        assert("ret"@[1] == 'e');
        assert("ret"@[2] == 't');
        assert("xor"@.len() == 3);
        assert("xor"@[0] == 'x');
        assert("xor"@[1] == 'o');
        assert("xor"@[2] == 'r');
    }
}

} // verus!
