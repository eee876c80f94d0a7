//! The two-wire bus as the driver sees it, and the history of transactions
//! made on it.
use vstd::prelude::*;

use crate::registers::Register;

verus! {

/// A two-wire bus. Each call is one blocking transaction; an error is the
/// bus's own and reaches the driver's caller unchanged.
///
/// `history` is every transaction attempted on the bus, oldest first, with
/// the bytes handed to the bus and, for a completed read, the byte that came
/// back. Each call appends exactly its own transaction.
pub trait I2cBus {
    type Error;

    /// An implementation checked by Verus defines this as the transactions
    /// it performed; one written outside verification cannot hold ghost
    /// state and keeps this default, and its calls are taken to behave as
    /// `write` and `write_read` state.
    closed spec fn history(&self) -> Seq<Transaction> {
        Seq::empty()
    }

    /// Writes `bytes` to the device at `address`.
    fn write(&mut self, address: u8, bytes: &[u8]) -> (r: Result<(), Self::Error>)
        ensures
            final(self).history() == old(self).history().push(
                match r {
                    Ok(()) => Transaction::Write { address, bytes: bytes@ },
                    Err(_) => Transaction::WriteFailed { address, bytes: bytes@ },
                },
            ),
    ;

    /// Writes `bytes` to the device at `address`, then reads one byte back.
    fn write_read(&mut self, address: u8, bytes: &[u8]) -> (r: Result<u8, Self::Error>)
        ensures
            final(self).history() == old(self).history().push(
                match r {
                    Ok(b) => Transaction::WriteRead { address, bytes: bytes@, read: b },
                    Err(_) => Transaction::WriteReadFailed { address, bytes: bytes@ },
                },
            ),
    ;
}

/// One transaction attempted on the bus.
pub enum Transaction {
    /// A write that completed.
    Write { address: u8, bytes: Seq<u8> },
    /// A write that the bus reported as failed.
    WriteFailed { address: u8, bytes: Seq<u8> },
    /// A write followed by a one-byte read, both completed.
    WriteRead { address: u8, bytes: Seq<u8>, read: u8 },
    /// A write followed by a one-byte read that the bus reported as failed.
    WriteReadFailed { address: u8, bytes: Seq<u8> },
}

/// A register write: the register's address followed by the value.
pub open spec fn write_txn(address: u8, reg: Register, value: u8) -> Transaction {
    Transaction::Write { address, bytes: seq![reg.spec_addr(), value] }
}

/// A failed register write.
pub open spec fn write_failed_txn(address: u8, reg: Register, value: u8) -> Transaction {
    Transaction::WriteFailed { address, bytes: seq![reg.spec_addr(), value] }
}

/// A register read: the register's address, then one byte back.
pub open spec fn read_txn(address: u8, reg: Register, value: u8) -> Transaction {
    Transaction::WriteRead { address, bytes: seq![reg.spec_addr()], read: value }
}

/// A failed register read.
pub open spec fn read_failed_txn(address: u8, reg: Register) -> Transaction {
    Transaction::WriteReadFailed { address, bytes: seq![reg.spec_addr()] }
}

/// The three reads that load the calibration: offset trim, high gain trim,
/// low gain trim, in that order.
pub open spec fn calibration_reads(address: u8, offset: u8, gain1: u8, gain2: u8) -> Seq<
    Transaction,
> {
    seq![
        read_txn(address, Register::ADCOFFSET, offset),
        read_txn(address, Register::ADCGAIN1, gain1),
        read_txn(address, Register::ADCGAIN2, gain2),
    ]
}

/// `after` is `before` followed by the calibration reads up to one that
/// failed: the reads after the failed one were not attempted.
pub open spec fn calibration_failure(address: u8, before: Seq<Transaction>, after: Seq<Transaction>) -> bool {
    ||| after == before.push(read_failed_txn(address, Register::ADCOFFSET))
    ||| exists|o: u8|
        after == (#[trigger] before.push(read_txn(address, Register::ADCOFFSET, o))).push(
            read_failed_txn(address, Register::ADCGAIN1),
        )
    ||| exists|o: u8, g1: u8|
        after == (#[trigger] before.push(read_txn(address, Register::ADCOFFSET, o)).push(
            read_txn(address, Register::ADCGAIN1, g1),
        )).push(read_failed_txn(address, Register::ADCGAIN2))
}

/// `after` is `before` followed by a read of `hi` that failed, or by a read
/// of `hi` and a read of `lo` that failed.
pub open spec fn pair_read_failure(
    address: u8,
    hi: Register,
    lo: Register,
    before: Seq<Transaction>,
    after: Seq<Transaction>,
) -> bool {
    ||| after == before.push(read_failed_txn(address, hi))
    ||| exists|bh: u8|
        after == (#[trigger] before.push(read_txn(address, hi, bh))).push(
            read_failed_txn(address, lo),
        )
}

} // verus!
