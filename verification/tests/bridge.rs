use amdgpu_device_libs::dispatch::{HsaKernelDispatchPacket, HsaSignal};
use amdgpu_device_libs::hostcall::{
    console_length, decode_allocation, host_call_request, pack_response, prepare_console_write,
    unpack_response, Allocator, HostCallRequest, HostCallResponse, CONSOLE_LENGTH_MAX,
};
use amdgpu_device_libs::lane::{contract_violation_step, violation_message, LaneStatus};
use amdgpu_device_libs::util::{memcmp, str_eq, u32_to_decimal};

#[test]
fn console_accepts_lengths_up_to_the_signed_32_bit_maximum() {
    assert_eq!(console_length(0).unwrap(), 0);
    assert_eq!(console_length(5).unwrap(), 5);
    assert_eq!(console_length(CONSOLE_LENGTH_MAX).unwrap(), i32::MAX);
}

#[test]
fn console_refuses_oversized_output_whole() {
    assert!(console_length(CONSOLE_LENGTH_MAX + 1).is_err());
    assert!(console_length(usize::MAX).is_err());
}

#[test]
fn console_write_uses_the_byte_length() {
    assert_eq!(prepare_console_write("hello\n").unwrap(), 6);
    assert_eq!(prepare_console_write("").unwrap(), 0);
}

#[test]
fn response_packing_round_trips() {
    for (lo, hi) in [(0u64, 0u64), (1, 2), (u64::MAX, 0), (0, u64::MAX), (u64::MAX, u64::MAX)] {
        let packed = pack_response(HostCallResponse { lo, hi });
        let back = unpack_response(packed);
        assert_eq!(back.lo, lo);
        assert_eq!(back.hi, hi);
    }
    assert_eq!(pack_response(HostCallResponse { lo: 1, hi: 2 }), 1 + (2u128 << 64));
}

#[test]
fn concurrent_lanes_receive_their_own_responses() {
    // The driver answers each request on its own per-call channel; here a
    // stand-in host computes each response from the request it answers.
    let respond = |req: &HostCallRequest| -> u128 {
        pack_response(HostCallResponse { lo: req.handle.wrapping_add(req.arg0), hi: req.handle })
    };
    let lane_a = host_call_request(111, 7, 0, 0, 0, 0, 0, 0);
    let lane_b = host_call_request(222, 9, 0, 0, 0, 0, 0, 0);
    // Responses may arrive in either order; each lane unpacks only the
    // value of its own call.
    let packed_b = respond(&lane_b);
    let packed_a = respond(&lane_a);
    let got_a = unpack_response(packed_a);
    let got_b = unpack_response(packed_b);
    assert_eq!(got_a.lo, 118);
    assert_eq!(got_a.hi, 111);
    assert_eq!(got_b.lo, 231);
    assert_eq!(got_b.hi, 222);
    assert_ne!(got_a, got_b);
}

#[test]
fn host_call_request_carries_all_seven_words() {
    let r = host_call_request(10, 1, 2, 3, 4, 5, 6, 7);
    assert_eq!(r.handle, 10);
    assert_eq!(r.arg0, 1);
    assert_eq!(r.arg1, 2);
    assert_eq!(r.arg2, 3);
    assert_eq!(r.arg3, 4);
    assert_eq!(r.arg4, 5);
    assert_eq!(r.arg5, 6);
    assert_eq!(r.arg6, 7);
}

#[test]
fn allocator_requests_forward_one_word() {
    let a = Allocator::new(0x1000, 0x2000);
    let req = a.allocation_request(4096);
    assert_eq!(req.handle, 0x1000);
    assert_eq!(req.arg0, 4096);
    assert_eq!((req.arg1, req.arg2, req.arg3, req.arg4, req.arg5, req.arg6), (0, 0, 0, 0, 0, 0));
    let rel = a.release_request(0xdead_0000);
    assert_eq!(rel.handle, 0x2000);
    assert_eq!(rel.arg0, 0xdead_0000);
}

#[test]
fn allocation_failure_is_a_null_address() {
    assert_eq!(decode_allocation(0), None);
    assert_eq!(decode_allocation(0x7000_0000), Some(0x7000_0000));
}

#[test]
fn violation_message_names_the_lane_coordinates() {
    let s = violation_message(1, 2, 3, 4, 5, 6, "panicked at index out of bounds");
    assert_eq!(s, "workgroup 1,2,3 thread 4,5,6 panicked at index out of bounds\n");
}

#[test]
fn contract_violation_halts_only_the_offending_lane() {
    let (message, status) = contract_violation_step(0, 0, 0, 31, 0, 0, "assertion failed");
    assert_eq!(status, LaneStatus::Halted);
    assert_eq!(message, "workgroup 0,0,0 thread 31,0,0 assertion failed\n");
    assert_ne!(status, LaneStatus::Running);
}

#[test]
fn decimal_rendering_is_exact() {
    assert_eq!(u32_to_decimal(0), "0");
    assert_eq!(u32_to_decimal(906), "906");
    assert_eq!(u32_to_decimal(1100), "1100");
    assert_eq!(u32_to_decimal(u32::MAX), "4294967295");
}

#[test]
fn memcmp_matches_the_c_convention() {
    assert_eq!(memcmp(b"abc", b"abc", 3), 0);
    assert_eq!(memcmp(b"abc", b"abd", 3), ('c' as i32) - ('d' as i32));
    assert_eq!(memcmp(b"abd", b"abc", 3), ('d' as i32) - ('c' as i32));
    assert_eq!(memcmp(b"abc", b"abd", 2), 0);
    assert_eq!(memcmp(b"", b"", 0), 0);
    assert_eq!(memcmp(b"\xff", b"\x00", 1), 255);
}

#[test]
fn string_equality_compares_character_sequences() {
    assert!(str_eq("gfx906", "gfx906"));
    assert!(!str_eq("gfx906", "gfx1100"));
    assert!(!str_eq("gfx906", "gfx90"));
    assert!(str_eq("", ""));
}

#[test]
fn dispatch_packet_validity_conditions() {
    let packet = HsaKernelDispatchPacket {
        header: 0,
        setup: 1,
        workgroup_size_x: 64,
        workgroup_size_y: 1,
        workgroup_size_z: 1,
        reserved0: 0,
        grid_size_x: 1024,
        grid_size_y: 1,
        grid_size_z: 1,
        private_segment_size: 0,
        group_segment_size: 0,
        kernel_object: 0x4242,
        kernarg_address: 0x1_0000,
        reserved2: 0,
        completion_signal: HsaSignal { handle: 7 },
    };
    assert!(packet.is_well_formed());

    let mut zero_workgroup = packet.clone();
    zero_workgroup.workgroup_size_x = 0;
    assert!(!zero_workgroup.is_well_formed());

    let mut small_grid = packet.clone();
    small_grid.grid_size_x = 32;
    assert!(!small_grid.is_well_formed());

    let mut reserved_set = packet.clone();
    reserved_set.reserved2 = 1;
    assert!(!reserved_set.is_well_formed());
}
