use render_core::{index_buffer, IndexBuffer, State};

#[test]
fn index_buffer_holds_two_bytes_for_every_index() {
    let indices: [u16; 6] = [0, 1, 2, 2, 3, 0x1234];
    let buffer = index_buffer(&indices).unwrap();
    assert_eq!(buffer.num_indices, 6);
    assert_eq!(buffer.contents.len(), 12);
    let mut expected = Vec::new();
    for index in indices {
        expected.extend_from_slice(&index.to_ne_bytes());
    }
    assert_eq!(buffer.contents, expected);
    let low_first = buffer.contents[10] == 0x34 && buffer.contents[11] == 0x12;
    let high_first = buffer.contents[10] == 0x12 && buffer.contents[11] == 0x34;
    assert!(low_first || high_first);
}

#[test]
fn index_buffer_of_no_indices_is_empty() {
    assert_eq!(index_buffer(&[]), Some(IndexBuffer { contents: Vec::new(), num_indices: 0 }));
}

#[test]
fn the_draw_covers_the_index_buffer() {
    let buffer = index_buffer(&[0, 1, 2, 2, 3, 0]).unwrap();
    let mut state = State::new(800, 600, buffer.num_indices);
    state.setup_finished(Ok(()));
    let frame = state.render().unwrap().unwrap();
    assert!(frame.steps.contains(&render_core::FrameStep::DrawIndexed {
        first_index: 0,
        index_count: 6,
        instances: 1
    }));
}
