//! The decoder: from the bytes of a program to instruction records.

use std::collections::BTreeMap;
use vstd::prelude::*;
use crate::cpu::Instruction;
use crate::opcode::instruction_length;

verus! {

/// The length of every instruction, by opcode.
pub open spec fn length_table() -> Map<u8, u8> {
    Map::new(|op: u8| instruction_length(op) is Some, |op: u8| instruction_length(op)->0)
}

/// Whether a whole instruction lies in `bytes` at offset `at`.
pub open spec fn complete_at(bytes: Seq<u8>, at: int) -> bool {
    &&& 0 <= at < bytes.len()
    &&& instruction_length(bytes[at]) matches Some(size) && at + size <= bytes.len()
}

/// The operand bytes of an instruction of `size` bytes at offset `at`, padded
/// with zeros. A program holds an address low byte first; here it stands high
/// byte first.
pub open spec fn operands_at(bytes: Seq<u8>, at: int, size: u8) -> Seq<u8> {
    if size == 3 {
        seq![bytes[at + 2], bytes[at + 1]]
    } else if size == 2 {
        seq![bytes[at + 1], 0u8]
    } else {
        seq![0u8, 0u8]
    }
}

/// Whether `inst` is the instruction that lies in `bytes` at offset `at`.
pub open spec fn encodes(bytes: Seq<u8>, at: int, inst: Instruction) -> bool {
    &&& complete_at(bytes, at)
    &&& inst.op_code == bytes[at]
    &&& instruction_length(bytes[at]) == Some(inst.size)
    &&& inst.operand_bytes@ == operands_at(bytes, at, inst.size)
}

/// Whether `instructions` are the instructions that lie in `bytes` back to
/// back from offset `from` up to offset `to`.
pub open spec fn parses(bytes: Seq<u8>, from: int, instructions: Seq<Instruction>, to: int) -> bool
    decreases instructions.len(),
{
    if instructions.len() == 0 {
        to == from
    } else {
        let last = instructions.last();
        &&& parses(bytes, from, instructions.drop_last(), to - last.size)
        &&& encodes(bytes, to - last.size, last)
    }
}

/// A decoder. It owns the table of instruction lengths.
pub struct Parser {
    instruction_length_map: BTreeMap<u8, u8>,
}

impl Parser {
    /// The table of instruction lengths that the decoder holds.
    pub closed spec fn lengths(&self) -> Map<u8, u8> {
        self.instruction_length_map@
    }

    #[verifier::type_invariant]
    spec fn holds_length_table(&self) -> bool {
        self.instruction_length_map@ == length_table()
    }

    /// A decoder that knows the length of every instruction in the opcode
    /// table.
    pub fn new() -> (parser: Parser)
        ensures
            parser.lengths() == length_table(),
    {
        let mut map: BTreeMap<u8, u8> = BTreeMap::new();
        let mut next: u16 = 0;
        while next < 256
            invariant
                next <= 256,
                forall|op: u8|
                    map@.contains_key(op) <==> op < next && instruction_length(op) is Some,
                forall|op: u8|
                    map@.contains_key(op) ==> instruction_length(op) == Some(#[trigger] map@[op]),
            decreases 256 - next,
        {
            let op: u8 = next as u8;
            match instruction_length(op) {
                Some(size) => {
                    map.insert(op, size);
                },
                None => {},
            }
            next += 1;
        }
        assert(map@ =~= length_table());
        Parser { instruction_length_map: map }
    }

    /// The length of the instruction that `op_code` begins, or `None` where the
    /// byte is no instruction.
    pub fn length_of(&self, op_code: u8) -> (size: Option<u8>)
        ensures
            size == instruction_length(op_code),
    {
        proof {
            use_type_invariant(self);
        }
        match self.instruction_length_map.get(&op_code) {
            Some(size) => Some(*size),
            None => None,
        }
    }

    /// Decodes the instructions that lie back to back at the start of `bytes`
    /// and appends them to `instructions`. Decoding stops at the end of
    /// `bytes`, or before a byte that is no opcode or whose instruction is cut
    /// off. Returns the number of bytes decoded.
    pub fn parse_to_instructions(&self, bytes: &[u8], instructions: &mut Vec<Instruction>) -> (consumed:
        usize)
        ensures
            final(instructions)@.len() >= old(instructions)@.len(),
            final(instructions)@.take(old(instructions)@.len() as int) == old(instructions)@,
            parses(
                bytes@,
                0,
                final(instructions)@.skip(old(instructions)@.len() as int),
                consumed as int,
            ),
            consumed == bytes@.len() || !complete_at(bytes@, consumed as int),
    {
        let ghost before = instructions@;
        let mut at: usize = 0;
        while at < bytes.len()
            invariant
                at <= bytes@.len(),
                instructions@.len() >= before.len(),
                instructions@.take(before.len() as int) == before,
                parses(bytes@, 0, instructions@.skip(before.len() as int), at as int),
            ensures
                at == bytes@.len() || !complete_at(bytes@, at as int),
            decreases bytes@.len() - at,
        {
            let op_code: u8 = bytes[at];
            let size: u8 = match self.length_of(op_code) {
                Some(size) => size,
                None => {
                    break ;
                },
            };
            if size as usize > bytes.len() - at {
                break ;
            }
            let operand_bytes: [u8; 2] = if size == 3 {
                [bytes[at + 2], bytes[at + 1]]
            } else if size == 2 {
                [bytes[at + 1], 0]
            } else {
                [0, 0]
            };
            let inst = Instruction::new(op_code, operand_bytes, size);
            let ghost decoded = instructions@.skip(before.len() as int);
            instructions.push(inst);
            proof {
                let extended = instructions@.skip(before.len() as int);
                assert(extended.drop_last() =~= decoded);
                assert(extended.last() == inst);
                assert(inst.operand_bytes@ =~= operands_at(bytes@, at as int, size));
                assert(instructions@.take(before.len() as int) =~= before);
            }
            at += size as usize;
        }
        at
    }
}

} // verus!
