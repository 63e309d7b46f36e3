use tpsecore::accel::{AudioHandleIds, WasmAcceleratorState};

#[test]
fn texture_commands_are_recorded() {
    let mut state = WasmAcceleratorState::new();
    assert!(state.flush_command_buffer().is_none());
    let blank = state.new_texture(2, 3);
    assert_eq!(blank.id(), 0);
    assert_eq!(blank.dimensions, Some((2, 3)));
    let copy = state.create_copy(&blank);
    assert_eq!(copy.id, 1);
    assert_eq!(copy.dimensions, Some((2, 3)));
    state.overlay(&blank, &copy, -1, 2);
    state.drop_handle(&copy);
    let flushed = state.flush_command_buffer().expect("commands were recorded");
    let mut expected = vec![1u8];
    expected.extend_from_slice(&0u64.to_be_bytes());
    expected.extend_from_slice(&2u32.to_be_bytes());
    expected.extend_from_slice(&3u32.to_be_bytes());
    expected.push(3);
    expected.extend_from_slice(&0u64.to_be_bytes());
    expected.extend_from_slice(&1u64.to_be_bytes());
    expected.push(7);
    expected.extend_from_slice(&0u64.to_be_bytes());
    expected.extend_from_slice(&1u64.to_be_bytes());
    expected.extend_from_slice(&(-1i64).to_be_bytes());
    expected.extend_from_slice(&2i64.to_be_bytes());
    expected.push(0);
    expected.extend_from_slice(&1u64.to_be_bytes());
    assert_eq!(flushed.command_buffer, expected);
    assert!(flushed.arcs_in_command_buffer.is_empty());
    assert!(state.flush_command_buffer().is_none());
    assert_eq!(state.id_counter, 2);
}

#[test]
fn derived_textures() {
    let mut state = WasmAcceleratorState::new();
    let decoded = state.decode_texture(vec![9, 9, 9], 0x1000);
    assert_eq!(decoded.dimensions, None);
    let part = state.slice(&decoded, 1, 2, 3, 4);
    let big = state.resized(&part, 10, 20);
    assert_eq!(big.dimensions, Some((10, 20)));
    let red = state.tinted(&big, [255, 0, 0, 255]);
    assert_eq!(red.id, 3);
    let flushed = state.flush_command_buffer().expect("commands were recorded");
    assert_eq!(flushed.arcs_in_command_buffer, vec![vec![9, 9, 9]]);
    let mut expected = vec![2u8];
    expected.extend_from_slice(&0u64.to_be_bytes());
    expected.extend_from_slice(&0x1000u64.to_be_bytes());
    expected.extend_from_slice(&3u64.to_be_bytes());
    expected.push(4);
    expected.extend_from_slice(&0u64.to_be_bytes());
    expected.extend_from_slice(&1u64.to_be_bytes());
    for v in [1u32, 2, 3, 4] {
        expected.extend_from_slice(&v.to_be_bytes());
    }
    expected.push(5);
    expected.extend_from_slice(&1u64.to_be_bytes());
    expected.extend_from_slice(&2u64.to_be_bytes());
    expected.extend_from_slice(&10u32.to_be_bytes());
    expected.extend_from_slice(&20u32.to_be_bytes());
    expected.push(6);
    expected.extend_from_slice(&2u64.to_be_bytes());
    expected.extend_from_slice(&3u64.to_be_bytes());
    expected.extend_from_slice(&[255, 0, 0, 255]);
    assert_eq!(flushed.command_buffer, expected);
}

#[test]
fn handles_and_audio_ids_count_up() {
    let mut state = WasmAcceleratorState::new();
    let a = state.new_handle(None);
    let b = state.new_handle(Some((1, 1)));
    assert_ne!(a.id, b.id);
    let mut ids = AudioHandleIds { next: 5 };
    assert_eq!(ids.next_id(), 5);
    assert_eq!(ids.next_id(), 6);
}
