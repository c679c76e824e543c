use rusty_games::{
    decode_shader_code, frame_commands, log_level_for, ClearColor, CommandPool, Extent2D,
    FrameCommand, LogLevel, SetupError, DEBUG_MESSAGE_TYPE_MASK, DEBUG_SEVERITY_MASK,
};

#[test]
fn frame_commands_draw_one_triangle() {
    let extent = Extent2D { width: 800, height: 600 };
    let commands = frame_commands(1, 3, extent).unwrap();
    assert_eq!(
        commands,
        vec![
            FrameCommand::BeginRenderPass {
                framebuffer: 1,
                render_area: extent,
                clear_color: ClearColor { r: 0, g: 0, b: 0, a: 1 },
            },
            FrameCommand::BindPipeline,
            FrameCommand::Draw { vertex_count: 3, instance_count: 1, first_vertex: 0, first_instance: 0 },
            FrameCommand::EndRenderPass,
        ]
    );
}

#[test]
fn frame_commands_reject_unknown_image() {
    let extent = Extent2D { width: 1, height: 1 };
    assert_eq!(frame_commands(3, 3, extent), Err(SetupError::ImageIndexOutOfRange));
    assert_eq!(frame_commands(0, 0, extent), Err(SetupError::ImageIndexOutOfRange));
}

#[test]
fn command_pool_cycles_through_frames() {
    let mut pool = CommandPool::new(vec!['a', 'b', 'c']);
    let got: Vec<char> = (0..7).map(|_| *pool.get_next_frame()).collect();
    assert_eq!(got, vec!['a', 'b', 'c', 'a', 'b', 'c', 'a']);
    let mut single = CommandPool::new(vec![7u8]);
    assert_eq!(*single.get_next_frame(), 7);
    assert_eq!(*single.get_next_frame(), 7);
}

#[test]
fn shader_blob_is_decoded_little_endian() {
    let code = [0x03u8, 0x02, 0x23, 0x07, 0x00, 0x00, 0x01, 0x00];
    assert_eq!(decode_shader_code(&code), Ok(vec![0x0723_0203, 0x0001_0000]));
    assert_eq!(decode_shader_code(&[]), Ok(vec![]));
    assert_eq!(decode_shader_code(&[0xff; 4]), Ok(vec![u32::MAX]));
}

#[test]
fn shader_blob_length_must_be_a_multiple_of_four() {
    assert_eq!(decode_shader_code(&[1, 2, 3, 4, 5]), Err(SetupError::InvalidShaderCode));
    assert_eq!(decode_shader_code(&[1]), Err(SetupError::InvalidShaderCode));
}

#[test]
fn severities_map_one_to_one() {
    assert_eq!(log_level_for(0x1), Some(LogLevel::Trace));
    assert_eq!(log_level_for(0x10), Some(LogLevel::Info));
    assert_eq!(log_level_for(0x100), Some(LogLevel::Warn));
    assert_eq!(log_level_for(0x1000), Some(LogLevel::Error));
    assert_eq!(log_level_for(0x11), None);
    assert_eq!(log_level_for(0), None);
}

#[test]
fn messenger_subscribes_to_everything() {
    assert_eq!(DEBUG_SEVERITY_MASK, 0x1111);
    assert_eq!(DEBUG_MESSAGE_TYPE_MASK, 0x7);
}
