//! The instructions the program accepts, and their wire format:
//!
//! ```text
//! byte 0       : discriminant (0, 1 or 2)
//! bytes 1..9   : amount, little-endian u64           (discriminants 1 and 2)
//! bytes 9..17  : expected_profit, little-endian u64  (discriminant 2)
//! bytes 17..   : execute_operation_ix_data, raw      (discriminant 2)
//! ```

use vstd::prelude::*;

use crate::wire::{le_bytes, le_u64, lemma_le_u64_of_le_bytes, push_u64_le, u64_from_le, U64_LEN};

verus! {

/// Why a byte buffer is not a valid instruction.
#[derive(Clone, Copy, Debug, PartialEq, Eq, Structural)]
pub enum DecodeError {
    /// The buffer is empty.
    MissingTag,
    /// The first byte is not a known discriminant.
    UnknownTag,
    /// The discriminant is known but a fixed-size field is cut short.
    TruncatedPayload,
}

/// An instruction the program accepts.
#[derive(Debug, PartialEq, Eq)]
pub enum FlashloanArbitrageInstruction {
    /// Initializes the flash loan arbitrage program account.
    InitFlashloanArbitrage,
    /// Executes the arbitrage operation after receiving a flash loan.
    ExecuteOperation {
        /// Amount borrowed.
        amount: u64,
    },
    /// Requests a flash loan and executes arbitrage.
    FlashloanArbitrage {
        /// Amount to borrow.
        amount: u64,
        /// Data for the execute operation instruction.
        execute_operation_ix_data: Vec<u8>,
        /// Minimum profit for the trade to be worthwhile.
        expected_profit: u64,
    },
}

/// Mathematical model of an instruction: its payload bytes as a sequence.
pub enum InstructionView {
    InitFlashloanArbitrage,
    ExecuteOperation { amount: u64 },
    FlashloanArbitrage { amount: u64, execute_operation_ix_data: Seq<u8>, expected_profit: u64 },
}

impl View for FlashloanArbitrageInstruction {
    type V = InstructionView;

    open spec fn view(&self) -> InstructionView {
        match self {
            FlashloanArbitrageInstruction::InitFlashloanArbitrage => {
                InstructionView::InitFlashloanArbitrage
            },
            FlashloanArbitrageInstruction::ExecuteOperation { amount } => {
                InstructionView::ExecuteOperation { amount: *amount }
            },
            FlashloanArbitrageInstruction::FlashloanArbitrage {
                amount,
                execute_operation_ix_data,
                expected_profit,
            } => InstructionView::FlashloanArbitrage {
                amount: *amount,
                execute_operation_ix_data: execute_operation_ix_data@,
                expected_profit: *expected_profit,
            },
        }
    }
}

/// The instruction a byte buffer encodes, or why it encodes none.
/// Bytes after a complete `InitFlashloanArbitrage` or `ExecuteOperation`
/// payload are ignored; for `FlashloanArbitrage` they are the extra data.
pub open spec fn spec_unpack(input: Seq<u8>) -> Result<InstructionView, DecodeError> {
    if input.len() == 0 {
        Err(DecodeError::MissingTag)
    } else if input[0] == 0 {
        Ok(InstructionView::InitFlashloanArbitrage)
    } else if input[0] == 1 {
        if input.len() < 9 {
            Err(DecodeError::TruncatedPayload)
        } else {
            Ok(InstructionView::ExecuteOperation { amount: le_u64(input.subrange(1, 9)) })
        }
    } else if input[0] == 2 {
        if input.len() < 17 {
            Err(DecodeError::TruncatedPayload)
        } else {
            Ok(
                InstructionView::FlashloanArbitrage {
                    amount: le_u64(input.subrange(1, 9)),
                    execute_operation_ix_data: input.subrange(17, input.len() as int),
                    expected_profit: le_u64(input.subrange(9, 17)),
                },
            )
        }
    } else {
        Err(DecodeError::UnknownTag)
    }
}

/// The bytes that encode an instruction.
pub open spec fn spec_pack(v: InstructionView) -> Seq<u8> {
    match v {
        InstructionView::InitFlashloanArbitrage => seq![0u8],
        InstructionView::ExecuteOperation { amount } => seq![1u8] + le_bytes(amount),
        InstructionView::FlashloanArbitrage {
            amount,
            execute_operation_ix_data,
            expected_profit,
        } => seq![2u8] + le_bytes(amount) + le_bytes(expected_profit) + execute_operation_ix_data,
    }
}

/// A decoding result with the instruction replaced by its model.
pub open spec fn view_result(r: Result<FlashloanArbitrageInstruction, DecodeError>) -> Result<
    InstructionView,
    DecodeError,
> {
    match r {
        Ok(i) => Ok(i@),
        Err(e) => Err(e),
    }
}

/// Decoding the encoding of any instruction gives that instruction back.
pub proof fn lemma_unpack_pack(v: InstructionView)
    ensures
        spec_unpack(spec_pack(v)) == Ok::<InstructionView, DecodeError>(v),
{
    let s = spec_pack(v);
    match v {
        InstructionView::InitFlashloanArbitrage => {},
        InstructionView::ExecuteOperation { amount } => {
            lemma_le_u64_of_le_bytes(amount);
            assert(s.subrange(1, 9) =~= le_bytes(amount));
        },
        InstructionView::FlashloanArbitrage {
            amount,
            execute_operation_ix_data,
            expected_profit,
        } => {
            lemma_le_u64_of_le_bytes(amount);
            lemma_le_u64_of_le_bytes(expected_profit);
            assert(s.subrange(1, 9) =~= le_bytes(amount));
            assert(s.subrange(9, 17) =~= le_bytes(expected_profit));
            assert(s.subrange(17, s.len() as int) =~= execute_operation_ix_data);
        },
    }
}

/// Decoding the bytes that `pack` produces for an instruction gives back an
/// instruction equal to it, field for field.
pub proof fn lemma_round_trip(op: &FlashloanArbitrageInstruction)
    ensures
        spec_unpack(spec_pack(op@)) == Ok::<InstructionView, DecodeError>(op@),
{
    lemma_unpack_pack(op@);
}

impl FlashloanArbitrageInstruction {
    /// Decodes an instruction from its wire format.
    pub fn unpack(input: &[u8]) -> (r: Result<Self, DecodeError>)
        ensures
            view_result(r) == spec_unpack(input@),
    {
        if input.len() == 0 {
            return Err(DecodeError::MissingTag);
        }
        let tag = input[0];
        let (_, rest) = input.split_at(1);
        if tag == 0 {
            Ok(Self::InitFlashloanArbitrage)
        } else if tag == 1 {
            let (amount, _rest) = Self::unpack_u64(rest)?;
            proof {
                assert(rest@.subrange(0, 8) =~= input@.subrange(1, 9));
            }
            Ok(Self::ExecuteOperation { amount })
        } else if tag == 2 {
            let (amount, rest) = Self::unpack_u64(rest)?;
            let (expected_profit, data) = Self::unpack_u64(rest)?;
            proof {
                assert(input@.subrange(1, 9) =~= input@.subrange(1, input@.len() as int).subrange(0, 8));
                assert(input@.subrange(9, 17) =~= rest@.subrange(0, 8));
                assert(input@.subrange(17, input@.len() as int) =~= data@);
            }
            let execute_operation_ix_data = vstd::slice::slice_to_vec(data);
            Ok(Self::FlashloanArbitrage { amount, execute_operation_ix_data, expected_profit })
        } else {
            Err(DecodeError::UnknownTag)
        }
    }

    /// Splits a little-endian `u64` off the front of `input`.
    fn unpack_u64(input: &[u8]) -> (r: Result<(u64, &[u8]), DecodeError>)
        ensures
            input@.len() >= 8 <==> r is Ok,
            r matches Ok((v, rest)) ==> v == le_u64(input@.subrange(0, 8)) && rest@
                == input@.subrange(8, input@.len() as int),
            r is Err ==> r == Err::<(u64, &[u8]), DecodeError>(DecodeError::TruncatedPayload),
    {
        if input.len() >= U64_LEN {
            let (head, rest) = input.split_at(U64_LEN);
            let v = u64_from_le(head);
            Ok((v, rest))
        } else {
            Err(DecodeError::TruncatedPayload)
        }
    }

    /// Encodes the instruction in its wire format.
    pub fn pack(&self) -> (r: Vec<u8>)
        ensures
            r@ == spec_pack(self@),
    {
        let mut buf: Vec<u8> = Vec::new();
        match self {
            Self::InitFlashloanArbitrage => {
                buf.push(0);
            },
            Self::ExecuteOperation { amount } => {
                buf.push(1);
                push_u64_le(&mut buf, *amount);
            },
            Self::FlashloanArbitrage { amount, execute_operation_ix_data, expected_profit } => {
                buf.push(2);
                push_u64_le(&mut buf, *amount);
                push_u64_le(&mut buf, *expected_profit);
                buf.extend_from_slice(execute_operation_ix_data.as_slice());
            },
        }
        assert(buf@ =~= spec_pack(self@));
        buf
    }
}

} // verus!
