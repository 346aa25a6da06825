//! The protocol of a native key store loaded as a shared library: the
//! status each entry point returns, what the returned buffer means for each
//! status, and the operation codes of the generic entry point.
use vstd::prelude::*;
use crate::text::push_str;

verus! {

/// The status of a successful call.
pub const STATUS_OK: i32 = 0;
/// The status of a lookup that found nothing.
pub const STATUS_NOT_FOUND: i32 = 1;
/// The length of an identity key.
pub const IDENTITY_KEY_LEN: usize = 32;

/// A store failure and its message.
#[derive(Debug)]
pub struct StoreFailure {
    pub message: String,
}

/// A failure with the given message.
pub fn make_err(msg: &str) -> (r: StoreFailure)
    ensures
        r.message@ == msg@,
{
    StoreFailure { message: String::from_str(msg) }
}

/// The message of a call that returned an error status.
pub open spec fn failed_message(operation: Seq<char>) -> Seq<char> {
    operation + " failed"@
}

fn failed(operation: &str) -> (r: StoreFailure)
    ensures
        r.message@ == failed_message(operation@),
{
    let mut message = String::from_str(operation);
    push_str(&mut message, " failed");
    StoreFailure { message }
}

/// A call that returns nothing: it succeeded exactly when its status is
/// zero; otherwise the failure names the operation.
pub fn unit_result(status: i32, operation: &str) -> (r: Result<(), StoreFailure>)
    ensures
        status == STATUS_OK ==> r is Ok,
        status != STATUS_OK ==> (r matches Err(e) && e.message@ == failed_message(operation@)),
{
    if status == STATUS_OK {
        Ok(())
    } else {
        Err(failed(operation))
    }
}

/// A call that writes one value: the value when the status is zero.
pub fn value_result<T>(status: i32, value: T, operation: &str) -> (r: Result<T, StoreFailure>)
    ensures
        status == STATUS_OK ==> r == Ok::<T, StoreFailure>(value),
        status != STATUS_OK ==> (r matches Err(e) && e.message@ == failed_message(operation@)),
{
    if status == STATUS_OK {
        Ok(value)
    } else {
        Err(failed(operation))
    }
}

/// The answer to whether a device is stored: the flag written is non-zero.
pub fn flag_result(status: i32, flag: i32, operation: &str) -> (r: Result<bool, StoreFailure>)
    ensures
        status == STATUS_OK ==> r == Ok::<bool, StoreFailure>(flag != 0),
        status != STATUS_OK ==> (r matches Err(e) && e.message@ == failed_message(operation@)),
{
    if status == STATUS_OK {
        Ok(flag != 0)
    } else {
        Err(failed(operation))
    }
}

/// A lookup: the buffer when the status is zero, nothing when it is one,
/// and a failure naming the operation for any other status.
pub fn optional_result(status: i32, buffer: Vec<u8>, operation: &str) -> (r: Result<Option<Vec<u8>>, StoreFailure>)
    ensures
        status == STATUS_OK ==> (r matches Ok(Some(b)) && b@ == buffer@),
        status == STATUS_NOT_FOUND ==> (r matches Ok(None)),
        status != STATUS_OK && status != STATUS_NOT_FOUND ==> (r matches Err(e) && e.message@ == failed_message(operation@)),
{
    if status == STATUS_OK {
        Ok(Some(buffer))
    } else if status == STATUS_NOT_FOUND {
        Ok(None)
    } else {
        Err(failed(operation))
    }
}

/// The message for an identity key of the wrong length.
pub open spec fn identity_length_message() -> Seq<char> {
    "invalid identity length"@
}

/// The lookup of an identity key: found keys must be 32 bytes long.
pub fn identity_result(status: i32, buffer: Vec<u8>) -> (r: Result<Option<Vec<u8>>, StoreFailure>)
    ensures
        status == STATUS_OK && buffer@.len() == IDENTITY_KEY_LEN ==> (r matches Ok(Some(k)) && k@ == buffer@),
        status == STATUS_OK && buffer@.len() != IDENTITY_KEY_LEN ==> (r matches Err(e) && e.message@ == identity_length_message()),
        status == STATUS_NOT_FOUND ==> (r matches Ok(None)),
        status != STATUS_OK && status != STATUS_NOT_FOUND ==> (r matches Err(e) && e.message@ == failed_message("load_identity"@)),
{
    if status == STATUS_OK {
        if buffer.len() == IDENTITY_KEY_LEN {
            Ok(Some(buffer))
        } else {
            Err(make_err("invalid identity length"))
        }
    } else if status == STATUS_NOT_FOUND {
        Ok(None)
    } else {
        Err(failed("load_identity"))
    }
}

/// The message of a failed generic call.
pub open spec fn call_failed_message() -> Seq<char> {
    "FFI call failed"@
}

/// The outcome of the generic entry point: on a zero status, an empty
/// buffer means no value; any other status is a failure.
pub fn call_result(status: i32, buffer: Vec<u8>) -> (r: Result<Option<Vec<u8>>, StoreFailure>)
    ensures
        status == STATUS_OK && buffer@.len() == 0 ==> (r matches Ok(None)),
        status == STATUS_OK && buffer@.len() > 0 ==> (r matches Ok(Some(b)) && b@ == buffer@),
        status != STATUS_OK ==> (r matches Err(e) && e.message@ == call_failed_message()),
{
    if status == STATUS_OK {
        if buffer.len() == 0 {
            Ok(None)
        } else {
            Ok(Some(buffer))
        }
    } else {
        Err(make_err("FFI call failed"))
    }
}

/// The value of little-endian bytes.
pub open spec fn le_value(bytes: Seq<u8>) -> nat
    decreases bytes.len(),
{
    if bytes.len() == 0 {
        0
    } else {
        bytes[0] as nat + 256 * le_value(bytes.drop_first())
    }
}

/// 256 to the power `n`.
pub open spec fn pow256(n: nat) -> nat
    decreases n,
{
    if n == 0 {
        1
    } else {
        256 * pow256((n - 1) as nat)
    }
}

proof fn lemma_le_value_bound(bytes: Seq<u8>)
    ensures
        le_value(bytes) < pow256(bytes.len()),
    decreases bytes.len(),
{
    if bytes.len() > 0 {
        lemma_le_value_bound(bytes.drop_first());
    }
}

/// The little-endian value of at most eight bytes.
fn le_decode(bytes: &[u8]) -> (r: u64)
    requires
        bytes@.len() <= 8,
    ensures
        r as nat == le_value(bytes@),
{
    let n = bytes.len();
    let mut value: u64 = 0;
    let mut i: usize = n;
    assert(bytes@.skip(n as int) =~= Seq::<u8>::empty());
    while i > 0
        invariant
            n == bytes@.len(),
            n <= 8,
            i <= n,
            value as nat == le_value(bytes@.skip(i as int)),
        decreases i,
    {
        let ghost rest = bytes@.skip(i as int);
        assert(bytes@.skip(i - 1).drop_first() =~= rest);
        proof {
            lemma_le_value_bound(rest);
            assert(pow256(rest.len()) <= pow256(7)) by {
                reveal_with_fuel(pow256, 9);
            }
            assert(pow256(7) == 0x100_0000_0000_0000) by {
                reveal_with_fuel(pow256, 9);
            }
        }
        value = bytes[i - 1] as u64 + 256 * value;
        i = i - 1;
    }
    assert(bytes@.skip(0) =~= bytes@);
    value
}

/// The count the store returns for a batch of message secrets: nothing
/// stands for zero, otherwise eight little-endian bytes.
pub fn count_u64(bytes: &[u8]) -> (r: u64)
    requires
        bytes@.len() == 0 || bytes@.len() == 8,
    ensures
        r as nat == le_value(bytes@),
{
    if bytes.len() == 0 {
        0
    } else {
        le_decode(bytes)
    }
}

/// The count the store returns for expired secrets: nothing stands for
/// zero, otherwise four little-endian bytes.
pub fn count_u32(bytes: &[u8]) -> (r: u32)
    requires
        bytes@.len() == 0 || bytes@.len() == 4,
    ensures
        r as nat == le_value(bytes@),
{
    if bytes.len() == 0 {
        0
    } else {
        proof {
            lemma_le_value_bound(bytes@);
            assert(pow256(4) == 0x1_0000_0000) by {
                reveal_with_fuel(pow256, 5);
            }
        }
        le_decode(bytes) as u32
    }
}

/// The operations of the generic entry point.
#[derive(Clone, Copy, Debug, PartialEq, Eq, Structural)]
pub enum StoreOp {
    PutMutationMacs,
    GetMutationMac,
    DeleteMutationMacs,
    GetSenderKeyDevices,
    SetSenderKeyStatus,
    ClearSenderKeyDevices,
    ClearAllSenderKeyDevices,
    DeleteSenderKeyDeviceRows,
    GetLidMapping,
    PutLidMapping,
    StoreSentMessage,
    TakeSentMessage,
    PutMsgSecrets,
    GetMsgSecret,
    DeleteExpiredMsgSecrets,
}

/// The code each operation is sent as.
pub open spec fn op_code(op: StoreOp) -> u32 {
    match op {
        StoreOp::PutMutationMacs => 24,
        StoreOp::GetMutationMac => 25,
        StoreOp::DeleteMutationMacs => 26,
        StoreOp::GetSenderKeyDevices => 30,
        StoreOp::SetSenderKeyStatus => 31,
        StoreOp::ClearSenderKeyDevices => 32,
        StoreOp::ClearAllSenderKeyDevices => 33,
        StoreOp::DeleteSenderKeyDeviceRows => 34,
        StoreOp::GetLidMapping => 35,
        StoreOp::PutLidMapping => 37,
        StoreOp::StoreSentMessage => 52,
        StoreOp::TakeSentMessage => 53,
        StoreOp::PutMsgSecrets => 60,
        StoreOp::GetMsgSecret => 61,
        StoreOp::DeleteExpiredMsgSecrets => 63,
    }
}

impl StoreOp {
    /// The code this operation is sent as.
    pub fn code(&self) -> (r: u32)
        ensures
            r == op_code(*self),
    {
        match self {
            StoreOp::PutMutationMacs => 24,
            StoreOp::GetMutationMac => 25,
            StoreOp::DeleteMutationMacs => 26,
            StoreOp::GetSenderKeyDevices => 30,
            StoreOp::SetSenderKeyStatus => 31,
            StoreOp::ClearSenderKeyDevices => 32,
            StoreOp::ClearAllSenderKeyDevices => 33,
            StoreOp::DeleteSenderKeyDeviceRows => 34,
            StoreOp::GetLidMapping => 35,
            StoreOp::PutLidMapping => 37,
            StoreOp::StoreSentMessage => 52,
            StoreOp::TakeSentMessage => 53,
            StoreOp::PutMsgSecrets => 60,
            StoreOp::GetMsgSecret => 61,
            StoreOp::DeleteExpiredMsgSecrets => 63,
        }
    }
}

/// Distinct operations are sent as distinct codes.
pub proof fn lemma_op_codes_distinct(a: StoreOp, b: StoreOp)
    requires
        a != b,
    ensures
        op_code(a) != op_code(b),
{
}

} // verus!
