//! Host-bridge marshalling.
//!
//! The fixed cross-boundary convention for calling a host-resident
//! function from an accelerator lane: a request is an opaque 64-bit
//! function handle plus seven 64-bit input words; a response is two
//! 64-bit output words packed into one 128-bit value. The allocator and
//! the console writer are realized as host-resident functions reached
//! through the same mechanism, exposed as typed minimal-argument
//! wrappers; this module holds the verified request construction and
//! response interpretation, while the transport itself lives outside the
//! library.

use vstd::arithmetic::div_mod::{
    lemma_fundamental_div_mod, lemma_fundamental_div_mod_converse_div,
    lemma_fundamental_div_mod_converse_mod,
};
use vstd::prelude::*;

verus! {

/// One cross-boundary call request: an opaque function handle and seven
/// 64-bit input words.
#[derive(Clone, Copy, PartialEq, Eq, Structural, Debug)]
pub struct HostCallRequest {
    /// The opaque handle of the host-resident function.
    pub handle: u64,
    /// The first input word.
    pub arg0: u64,
    /// The second input word.
    pub arg1: u64,
    /// The third input word.
    pub arg2: u64,
    /// The fourth input word.
    pub arg3: u64,
    /// The fifth input word.
    pub arg4: u64,
    /// The sixth input word.
    pub arg5: u64,
    /// The seventh input word.
    pub arg6: u64,
}

/// One cross-boundary call response: two 64-bit output words.
#[derive(Clone, Copy, PartialEq, Eq, Structural, Debug)]
pub struct HostCallResponse {
    /// The low output word.
    pub lo: u64,
    /// The high output word.
    pub hi: u64,
}

/// Builds the request for one host call. Each call builds its own
/// request; requests carry no shared state, so lanes need no locking.
pub fn host_call_request(
    function: u64,
    arg0: u64,
    arg1: u64,
    arg2: u64,
    arg3: u64,
    arg4: u64,
    arg5: u64,
    arg6: u64,
) -> (r: HostCallRequest)
    ensures
        r == (HostCallRequest {
            handle: function,
            arg0,
            arg1,
            arg2,
            arg3,
            arg4,
            arg5,
            arg6,
        }),
{
    HostCallRequest { handle: function, arg0, arg1, arg2, arg3, arg4, arg5, arg6 }
}

/// The two output words packed as one 128-bit value: the low word in the
/// low 64 bits, the high word in the high 64 bits.
pub open spec fn spec_pack_response(lo: u64, hi: u64) -> int {
    lo + hi * 0x1_0000_0000_0000_0000
}

/// Packs a response's two output words into the single 128-bit transport
/// value.
pub fn pack_response(r: HostCallResponse) -> (x: u128)
    ensures
        x as int == spec_pack_response(r.lo, r.hi),
{
    (r.hi as u128) * 0x1_0000_0000_0000_0000u128 + (r.lo as u128)
}

/// Unpacks the 128-bit transport value into the response's two output
/// words.
pub fn unpack_response(x: u128) -> (r: HostCallResponse)
    ensures
        spec_pack_response(r.lo, r.hi) == x as int,
        r.lo == x as int % 0x1_0000_0000_0000_0000,
        r.hi == x as int / 0x1_0000_0000_0000_0000,
{
    let lo = (x % 0x1_0000_0000_0000_0000u128) as u64;
    let hi = (x / 0x1_0000_0000_0000_0000u128) as u64;
    proof {
        lemma_fundamental_div_mod(x as int, 0x1_0000_0000_0000_0000);
    }
    HostCallResponse { lo, hi }
}

/// Law: packing is injective — a packed value decodes to exactly one
/// pair of output words, so each call's own request/response pairing is
/// preserved whatever order other lanes' calls complete in.
pub proof fn lemma_pack_response_injective(a: HostCallResponse, b: HostCallResponse)
    requires
        spec_pack_response(a.lo, a.hi) == spec_pack_response(b.lo, b.hi),
    ensures
        a == b,
{
    let d = 0x1_0000_0000_0000_0000;
    let x = spec_pack_response(a.lo, a.hi);
    lemma_fundamental_div_mod_converse_mod(x, d, a.hi as int, a.lo as int);
    lemma_fundamental_div_mod_converse_div(x, d, a.hi as int, a.lo as int);
    lemma_fundamental_div_mod_converse_mod(x, d, b.hi as int, b.lo as int);
    lemma_fundamental_div_mod_converse_div(x, d, b.hi as int, b.lo as int);
}

/// The console transport's length field is a 32-bit signed count.
pub const CONSOLE_LENGTH_MAX: usize = 0x7fff_ffff;

/// Output longer than the transport's 32-bit signed length field: the
/// caller must split the output itself; nothing was written.
#[derive(Debug)]
pub struct LengthOverflowError;

/// Checks a byte count against the console transport's 32-bit signed
/// length field: the count passes through exactly when it fits, and
/// oversized output is refused before anything is written.
pub fn console_length(len: usize) -> (r: Result<i32, LengthOverflowError>)
    ensures
        match r {
            Ok(n) => len <= CONSOLE_LENGTH_MAX && n == len,
            Err(_) => len > CONSOLE_LENGTH_MAX,
        },
{
    if len <= CONSOLE_LENGTH_MAX {
        Ok(len as i32)
    } else {
        Err(LengthOverflowError)
    }
}

/// Prepares one console write: the byte length of the text, checked
/// against the transport's length field. No partial write is possible:
/// oversized output is refused whole.
pub fn prepare_console_write(s: &str) -> (r: Result<i32, LengthOverflowError>)
    ensures
        match r {
            Ok(n) => s.len() <= CONSOLE_LENGTH_MAX && n == s.len(),
            Err(_) => s.len() > CONSOLE_LENGTH_MAX,
        },
{
    console_length(s.len())
}

/// The host-side allocation service: dynamic memory for accelerator
/// code is chunked host-side, reached through the call transport. The
/// service is constructed once at program start and owns the handles of
/// the two host-resident routines it speaks to.
#[derive(Debug)]
pub struct Allocator {
    /// The handle of the host-resident allocation routine.
    pub alloc_handle: u64,
    /// The handle of the host-resident deallocation routine.
    pub dealloc_handle: u64,
}

impl Allocator {
    /// An allocator speaking to the two given host-resident routines.
    pub fn new(alloc_handle: u64, dealloc_handle: u64) -> (r: Allocator)
        ensures
            r.alloc_handle == alloc_handle,
            r.dealloc_handle == dealloc_handle,
    {
        Allocator { alloc_handle, dealloc_handle }
    }

    /// The request that asks the host for `size` bytes: the size is the
    /// single forwarded word.
    pub fn allocation_request(&self, size: u64) -> (r: HostCallRequest)
        ensures
            r == (HostCallRequest {
                handle: self.alloc_handle,
                arg0: size,
                arg1: 0u64,
                arg2: 0u64,
                arg3: 0u64,
                arg4: 0u64,
                arg5: 0u64,
                arg6: 0u64,
            }),
    {
        HostCallRequest {
            handle: self.alloc_handle,
            arg0: size,
            arg1: 0,
            arg2: 0,
            arg3: 0,
            arg4: 0,
            arg5: 0,
            arg6: 0,
        }
    }

    /// The request that hands an address back to the host: the address is
    /// the single forwarded word. Releasing a null or already-released
    /// address is the caller's responsibility.
    pub fn release_request(&self, address: u64) -> (r: HostCallRequest)
        ensures
            r == (HostCallRequest {
                handle: self.dealloc_handle,
                arg0: address,
                arg1: 0u64,
                arg2: 0u64,
                arg3: 0u64,
                arg4: 0u64,
                arg5: 0u64,
                arg6: 0u64,
            }),
    {
        HostCallRequest {
            handle: self.dealloc_handle,
            arg0: address,
            arg1: 0,
            arg2: 0,
            arg3: 0,
            arg4: 0,
            arg5: 0,
            arg6: 0,
        }
    }
}

/// Reads the host's answer to an allocation request: a null address
/// encodes failure and is never a usable allocation; anything else is
/// the address of the new memory.
pub fn decode_allocation(address_word: u64) -> (r: Option<u64>)
    ensures
        match r {
            Some(a) => a == address_word && address_word != 0,
            None => address_word == 0,
        },
{
    if address_word == 0 {
        None
    } else {
        Some(address_word)
    }
}

} // verus!
