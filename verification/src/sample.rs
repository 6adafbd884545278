//! A sample syscall program: it doubles the integer that its caller hands in.

use crate::context::SyscallContext;
use crate::program::{invoke_outcome, ran_once, ProgramError, RunReply, Syscall};
use vstd::prelude::*;

verus! {

#[verifier::external_type_specification]
#[verifier::external_body]
pub struct ExPanicInfo<'a>(core::panic::PanicInfo<'a>);

/// The value that the sample program works on. In memory it is its one
/// field: four bytes in two's complement, the least significant first.
#[derive(Clone, Copy, Debug, PartialEq, Eq, Structural)]
pub struct MyData {
    pub value: i32,
}

/// The number of bytes that a `MyData` takes in memory.
pub const MY_DATA_SIZE: usize = 4;

/// The integer that four bytes hold, the least significant first, in two's
/// complement.
pub open spec fn i32_from_bytes(bytes: Seq<u8>) -> int
    recommends
        bytes.len() == 4,
{
    let unsigned: int = bytes[0] + 0x100 * bytes[1] + 0x1_0000 * bytes[2] + 0x100_0000 * bytes[3];
    if unsigned < 0x8000_0000 {
        unsigned
    } else {
        unsigned - 0x1_0000_0000
    }
}

/// The four bytes that hold `value`, the least significant first, in two's
/// complement.
pub open spec fn i32_to_bytes(value: int) -> Seq<u8>
    recommends
        i32::MIN <= value <= i32::MAX,
{
    let unsigned: int = if value >= 0 {
        value
    } else {
        value + 0x1_0000_0000
    };
    seq![
        (unsigned % 0x100) as u8,
        (unsigned / 0x100 % 0x100) as u8,
        (unsigned / 0x1_0000 % 0x100) as u8,
        (unsigned / 0x100_0000 % 0x100) as u8,
    ]
}

/// The memory of the sample program after one call: the integer in its
/// first four bytes is doubled, the rest is as it was.
pub open spec fn doubled(region: Seq<u8>) -> Seq<u8>
    recommends
        region.len() >= 4,
{
    i32_to_bytes(2 * i32_from_bytes(region.subrange(0, 4))) + region.subrange(
        4,
        region.len() as int,
    )
}

/// Whether the sample program can double the integer in `region`: the
/// region holds one, and twice the integer is a 32-bit integer again.
pub open spec fn can_double(region: Seq<u8>) -> bool {
    &&& region.len() >= 4
    &&& i32::MIN <= 2 * i32_from_bytes(region.subrange(0, 4)) <= i32::MAX
}

/// The sample program as the kernel sees it: what it returns for the memory
/// of a call, and the memory after the call.
pub open spec fn my_syscall_model(region: Seq<u8>) -> (i64, Seq<u8>) {
    (0, doubled(region))
}

/// Whether the sample program has panicked. Each of its functions is
/// verified not to, so it has not.
pub closed spec fn panicked() -> bool {
    false
}

impl MyData {
    /// The bytes of the value in memory.
    pub open spec fn spec_bytes(self) -> Seq<u8> {
        i32_to_bytes(self.value as int)
    }

    /// The value that `bytes` hold.
    pub open spec fn spec_from_bytes(bytes: Seq<u8>) -> MyData
        recommends
            bytes.len() == 4,
    {
        MyData { value: i32_from_bytes(bytes) as i32 }
    }

    /// Returns the bytes of the value in memory.
    pub fn to_bytes(&self) -> (bytes: Vec<u8>)
        ensures
            bytes@ == self.spec_bytes(),
    {
        let unsigned: u64 = if self.value >= 0 {
            self.value as u64
        } else {
            (self.value as i64 + 0x1_0000_0000) as u64
        };
        let mut bytes: Vec<u8> = Vec::new();
        bytes.push((unsigned % 0x100) as u8);
        bytes.push((unsigned / 0x100 % 0x100) as u8);
        bytes.push((unsigned / 0x1_0000 % 0x100) as u8);
        bytes.push((unsigned / 0x100_0000 % 0x100) as u8);
        bytes
    }

    /// Reads a value from memory that holds exactly one; other memory holds
    /// none.
    pub fn from_bytes(bytes: &Vec<u8>) -> (data: Option<MyData>)
        ensures
            data == if bytes@.len() == 4 {
                Some(MyData::spec_from_bytes(bytes@))
            } else {
                None
            },
    {
        if bytes.len() != MY_DATA_SIZE {
            return None;
        }
        Some(MyData { value: read_i32(bytes) })
    }
}

/// Reads the integer at the start of `region`.
fn read_i32(region: &Vec<u8>) -> (value: i32)
    requires
        region@.len() >= 4,
    ensures
        value == i32_from_bytes(region@.subrange(0, 4)),
{
    let unsigned: u64 = region[0] as u64 + 0x100 * (region[1] as u64) + 0x1_0000 * (
    region[2] as u64) + 0x100_0000 * (region[3] as u64);
    if unsigned < 0x8000_0000 {
        unsigned as i32
    } else {
        (unsigned as i64 - 0x1_0000_0000) as i32
    }
}

/// An integer that is written to memory is read back from it as it was.
pub proof fn lemma_bytes_round_trip(value: int)
    requires
        i32::MIN <= value <= i32::MAX,
    ensures
        i32_to_bytes(value).len() == 4,
        i32_from_bytes(i32_to_bytes(value)) == value,
{
}

/// A value that is written to memory is read back from it as it was.
pub proof fn lemma_my_data_round_trip(data: MyData)
    ensures
        data.spec_bytes().len() == 4,
        MyData::spec_from_bytes(data.spec_bytes()) == data,
{
    lemma_bytes_round_trip(data.value as int);
}

/// On the memory of a value, the sample program leaves the memory of the
/// value with twice the field.
pub proof fn lemma_doubled_my_data(data: MyData)
    requires
        i32::MIN <= 2 * data.value <= i32::MAX,
    ensures
        can_double(data.spec_bytes()),
        doubled(data.spec_bytes()) == (MyData { value: (2 * data.value) as i32 }).spec_bytes(),
{
    lemma_bytes_round_trip(data.value as int);
    let bytes = data.spec_bytes();
    assert(bytes.subrange(0, 4) == bytes);
    assert(bytes.subrange(4, bytes.len() as int) == Seq::<u8>::empty());
}

/// Invoking the loaded sample program with a value hands back the value
/// with twice the field, and the result 0.
pub proof fn lemma_invoke_doubles(handle: Syscall, data: MyData, reply: RunReply)
    requires
        handle.is_loaded(),
        i32::MIN <= 2 * data.value <= i32::MAX,
        ran_once(|region: Seq<u8>| my_syscall_model(region), data.spec_bytes(), reply),
    ensures
        invoke_outcome(handle@, data.spec_bytes(), reply) == (
            Ok::<i64, ProgramError>(0),
            (MyData { value: (2 * data.value) as i32 }).spec_bytes(),
        ),
{
    lemma_doubled_my_data(data);
}

/// The sample program. It takes the memory of the call for a `MyData`,
/// doubles its field in place and returns 0.
pub fn my_syscall(ctx: SyscallContext) -> (ret: i64)
    requires
        can_double(old(ctx.region())@),
    ensures
        (ret, final(ctx.region())@) == my_syscall_model(old(ctx.region())@),
{
    let region = ctx.as_ptr();
    let value: i32 = read_i32(region);
    let my_data = MyData { value: value + value };
    let bytes = my_data.to_bytes();
    region.set(0, bytes[0]);
    region.set(1, bytes[1]);
    region.set(2, bytes[2]);
    region.set(3, bytes[3]);
    0
}

/// The panic handler of the sample program. The kernel runs a program only
/// if it returns, and the handler has nothing to return to: it spins. So a
/// program that is run never comes here, which verified callers have to
/// show.
pub fn panic(_info: &core::panic::PanicInfo)
    requires
        panicked(),
{
    loop
        invariant
            panicked(),
        decreases 0int,
    {
    }
}

} // verus!
