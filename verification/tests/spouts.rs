use rusty_syphon_spout::spout::{
    buffer_holds_image, bytes_per_pixel, GL_BGR, GL_BGRA, GL_RGB, GL_RGBA, NAME_BUFFER_LEN,
};
use rusty_syphon_spout::{BufferCall, Effect, NamedCall, Role, Spout};

#[test]
fn missing_spout_gives_no_handle() {
    assert!(Spout::new(0).is_none());
}

#[test]
fn new_handle_has_no_role() {
    let spout = Spout::new(0x9000).expect("spout");
    assert_eq!(spout.role(), Role::Unassigned);
    assert_eq!(spout.as_ptr(), Some(0x9000));
    assert_eq!(spout.as_sender(), Some(0x9000));
    assert_eq!(spout.as_receiver(), Some(0x9000));
}

#[test]
fn naming_the_sender_makes_a_sender() {
    let mut spout = Spout::new(0x9000).expect("spout");
    let call = spout.sender_set_name(Some("Rusty sender")).expect("call");
    assert_eq!(call.object, 0x9000);
    assert_eq!(call.name, Some(b"Rusty sender\0".to_vec()));
    assert_eq!(spout.role(), Role::Sender);
    assert_eq!(spout.as_sender(), Some(0x9000));
    assert_eq!(spout.as_receiver(), None);
}

#[test]
fn naming_the_source_makes_a_receiver() {
    let mut spout = Spout::new(0x9000).expect("spout");
    let call = spout.receiver_set_name(None).expect("call");
    assert_eq!(call.object, 0x9000);
    assert_eq!(call.name, None);
    assert_eq!(spout.role(), Role::Receiver);
    assert_eq!(spout.as_receiver(), Some(0x9000));
    assert_eq!(spout.as_sender(), None);
}

#[test]
fn sender_refuses_the_calls_of_a_receiver() {
    let mut spout = Spout::new(0x9000).expect("spout");
    assert_eq!(spout.sender_set_format(), Some(0x9000));
    assert!(spout.receiver_set_name(Some("other")).is_none());
    assert_eq!(spout.receiver_receive_texture(), None);
    let pixels = vec![0u8; 16];
    assert_eq!(spout.receiver_receive_image(&pixels, 2, 2, GL_RGBA), None);
    assert_eq!(spout.role(), Role::Sender);
    assert_eq!(spout.sender_send_texture(), Some(0x9000));
    assert_eq!(spout.sender_send_fbo(), Some(0x9000));
}

#[test]
fn receiver_refuses_the_calls_of_a_sender() {
    let mut spout = Spout::new(0x9000).expect("spout");
    assert_eq!(spout.receiver_receive_texture(), Some(0x9000));
    assert!(spout.sender_set_name(Some("me")).is_none());
    assert_eq!(spout.sender_set_format(), None);
    assert_eq!(spout.sender_send_texture(), None);
    assert_eq!(spout.sender_send_fbo(), None);
    let pixels = vec![0u8; 16];
    assert_eq!(spout.sender_send_image(&pixels, 2, 2, GL_RGBA), None);
    assert_eq!(spout.role(), Role::Receiver);
}

#[test]
fn pixel_formats_have_three_or_four_bytes() {
    assert_eq!(bytes_per_pixel(GL_RGBA), Some(4));
    assert_eq!(bytes_per_pixel(GL_BGRA), Some(4));
    assert_eq!(bytes_per_pixel(GL_RGB), Some(3));
    assert_eq!(bytes_per_pixel(GL_BGR), Some(3));
    assert_eq!(bytes_per_pixel(0x1908), Some(4));
    assert_eq!(bytes_per_pixel(0x1909), None);
    assert_eq!(bytes_per_pixel(0), None);
}

#[test]
fn image_of_exact_length_is_sent() {
    let mut spout = Spout::new(0x9000).expect("spout");
    let pixels = vec![0u8; 64 * 64 * 4];
    assert_eq!(spout.sender_send_image(&pixels, 64, 64, GL_RGBA), Some(0x9000));
    assert_eq!(spout.role(), Role::Sender);
    let pixels = vec![0u8; 1920 * 1080 * 3];
    assert_eq!(spout.sender_send_image(&pixels, 1920, 1080, GL_BGR), Some(0x9000));
}

#[test]
fn undersized_send_is_refused() {
    let mut spout = Spout::new(0x9000).expect("spout");
    let pixels = vec![0u8; 64 * 64 * 4 - 1];
    assert_eq!(spout.sender_send_image(&pixels, 64, 64, GL_RGBA), None);
    assert_eq!(spout.sender_send_image(&pixels, 64, 64, GL_BGRA), None);
    assert_eq!(spout.sender_send_image(&[], 1, 1, GL_RGB), None);
    assert_eq!(spout.role(), Role::Unassigned);
    assert_eq!(spout.sender_send_image(&pixels, 64, 64, GL_RGB), Some(0x9000));
}

#[test]
fn undersized_receive_is_refused() {
    let mut spout = Spout::new(0x9000).expect("spout");
    let mut pixels = vec![7u8; 64 * 64 * 4 - 1];
    assert_eq!(spout.receiver_receive_image(&pixels, 64, 64, GL_RGBA), None);
    assert_eq!(spout.role(), Role::Unassigned);
    assert!(pixels.iter().all(|b| *b == 7));
    pixels.push(7);
    assert_eq!(spout.receiver_receive_image(&pixels, 64, 64, GL_RGBA), Some(0x9000));
    assert_eq!(spout.role(), Role::Receiver);
    assert_eq!(spout.receiver_receive_image(&pixels, 64, 65, GL_RGBA), None);
}

#[test]
fn image_too_large_to_count_is_refused() {
    let mut spout = Spout::new(0x9000).expect("spout");
    let pixels = vec![0u8; 1024];
    assert_eq!(spout.sender_send_image(&pixels, u32::MAX, u32::MAX, GL_RGBA), None);
    assert_eq!(spout.receiver_receive_image(&pixels, u32::MAX, u32::MAX, GL_RGB), None);
    assert!(!buffer_holds_image(&pixels, 0x8000_0000, 0x8000_0000, GL_RGBA));
}

#[test]
fn unknown_format_is_refused() {
    let mut spout = Spout::new(0x9000).expect("spout");
    let pixels = vec![0u8; 64 * 64 * 8];
    assert_eq!(spout.sender_send_image(&pixels, 64, 64, 0x1909), None);
    assert_eq!(spout.receiver_receive_image(&pixels, 64, 64, 0), None);
    assert_eq!(spout.role(), Role::Unassigned);
}

#[test]
fn empty_image_needs_no_bytes() {
    assert!(buffer_holds_image(&[], 0, 64, GL_RGBA));
    assert!(buffer_holds_image(&[], 64, 0, GL_RGB));
    assert!(!buffer_holds_image(&[], 1, 1, GL_RGB));
    assert!(buffer_holds_image(&[0, 0, 0], 1, 1, GL_RGB));
    assert!(!buffer_holds_image(&[0, 0, 0], 1, 1, GL_RGBA));
}

#[test]
fn sender_name_comes_from_a_native_string() {
    let spout = Spout::new(0x9000).expect("spout");
    assert_eq!(spout.sender_name(Some(b"Rusty sender")), Some("Rusty sender".to_string()));
    assert_eq!(spout.sender_name(None), None);
    assert_eq!(spout.sender_name(Some(&[0xff])), None);
}

fn name_buffer(text: &[u8]) -> Vec<u8> {
    let mut buf = vec![0u8; NAME_BUFFER_LEN];
    buf[..text.len()].copy_from_slice(text);
    buf
}

#[test]
fn names_are_read_out_of_fixed_buffers() {
    let spout = Spout::new(0x9000).expect("spout");
    let buf = name_buffer(b"Sender A");
    assert_eq!(buf.len(), 256);
    assert_eq!(spout.receiver_sender_name(true, &buf), Some("Sender A".to_string()));
    assert_eq!(spout.sender_name_at(true, &buf), Some("Sender A".to_string()));
    assert_eq!(spout.active_sender(true, &buf), Some("Sender A".to_string()));
}

#[test]
fn failed_name_query_gives_no_name() {
    let spout = Spout::new(0x9000).expect("spout");
    let buf = name_buffer(b"stale");
    assert_eq!(spout.receiver_sender_name(false, &buf), None);
    assert_eq!(spout.sender_name_at(false, &buf), None);
    assert_eq!(spout.active_sender(false, &buf), None);
}

#[test]
fn ill_formed_name_is_absent() {
    let spout = Spout::new(0x9000).expect("spout");
    let buf = name_buffer(&[b'S', 0xff, b'A']);
    assert_eq!(spout.receiver_sender_name(true, &buf), None);
    assert_eq!(spout.sender_name_at(true, &buf), None);
    assert_eq!(spout.active_sender(true, &buf), None);
}

#[test]
fn name_that_fills_the_buffer_is_taken_whole() {
    let spout = Spout::new(0x9000).expect("spout");
    let buf = vec![b'x'; NAME_BUFFER_LEN];
    let name = spout.sender_name_at(true, &buf).expect("name");
    assert_eq!(name.len(), 256);
}

#[test]
fn empty_name_counts_except_for_the_active_sender() {
    let spout = Spout::new(0x9000).expect("spout");
    let buf = name_buffer(b"");
    assert_eq!(spout.receiver_sender_name(true, &buf), Some(String::new()));
    assert_eq!(spout.sender_name_at(true, &buf), Some(String::new()));
    assert_eq!(spout.active_sender(true, &buf), None);
    assert_eq!(spout.active_sender(true, &[]), None);
}

#[test]
fn sender_is_looked_up_by_c_string() {
    let spout = Spout::new(0x9000).expect("spout");
    let call = spout.find_sender_name("Sender A").expect("call");
    assert_eq!(call.object, 0x9000);
    assert_eq!(call.name, Some(b"Sender A\0".to_vec()));
    let call = spout.find_sender_name("Sen\0der").expect("call");
    assert_eq!(call.name, None);
}

#[test]
fn active_sender_is_set_by_c_string() {
    let spout = Spout::new(0x9000).expect("spout");
    let call = spout.set_active_sender(Some("Sender A")).expect("call");
    assert_eq!(call.name, Some(b"Sender A\0".to_vec()));
    let call = spout.set_active_sender(None).expect("call");
    assert_eq!(call.name, None);
}

#[test]
fn sender_info_is_asked_by_c_string_only() {
    let spout = Spout::new(0x9000).expect("spout");
    let call = spout.sender_info_request("Sender A").expect("call");
    assert_eq!(call.object, 0x9000);
    assert_eq!(call.name, Some(b"Sender A\0".to_vec()));
    assert!(spout.sender_info_request("Sen\0der").is_none());
}

#[test]
fn sender_info_is_what_the_native_side_told() {
    let spout = Spout::new(0x9000).expect("spout");
    let info = spout.sender_info(true, 1920, 1080, 0xabc0, 87).expect("info");
    assert_eq!(info.width, 1920);
    assert_eq!(info.height, 1080);
    assert_eq!(info.share_handle, 0xabc0);
    assert_eq!(info.format, 87);
    assert!(spout.sender_info(false, 1920, 1080, 0xabc0, 87).is_none());
}

#[test]
fn frame_sync_names_go_out_as_c_strings() {
    let spout = Spout::new(0x9000).expect("spout");
    let call = spout.set_frame_sync(Some("Sender A")).expect("call");
    assert_eq!(call.object, 0x9000);
    assert_eq!(call.name, Some(b"Sender A\0".to_vec()));
    let call = spout.wait_frame_sync(Some("Sender A")).expect("call");
    assert_eq!(call.name, Some(b"Sender A\0".to_vec()));
    let call = spout.wait_frame_sync(None).expect("call");
    assert_eq!(call.name, None);
    let call = spout.set_frame_sync(Some("a\0")).expect("call");
    assert_eq!(call.name, None);
}

#[test]
fn memory_buffer_is_written_under_a_c_string_name() {
    let spout = Spout::new(0x9000).expect("spout");
    let call = spout.write_memory_buffer("Sender A", b"payload").expect("call");
    assert_eq!(call.object, 0x9000);
    assert_eq!(call.name, b"Sender A\0".to_vec());
    assert_eq!(call.length, 7);
    let call = spout.write_memory_buffer("Sender A", b"").expect("call");
    assert_eq!(call.length, 0);
    assert!(spout.write_memory_buffer("Sen\0der", b"payload").is_none());
}

#[test]
fn memory_buffer_is_read_into_the_whole_buffer() {
    let spout = Spout::new(0x9000).expect("spout");
    let out = vec![0u8; 512];
    let call = spout.read_memory_buffer_request("Sender A", &out).expect("call");
    assert_eq!(call.object, 0x9000);
    assert_eq!(call.name, b"Sender A\0".to_vec());
    assert_eq!(call.length, 512);
    assert!(spout.read_memory_buffer_request("\0", &out).is_none());
}

#[test]
fn bytes_read_are_never_negative() {
    let spout = Spout::new(0x9000).expect("spout");
    assert_eq!(spout.read_memory_buffer(0), 0);
    assert_eq!(spout.read_memory_buffer(-1), 0);
    assert_eq!(spout.read_memory_buffer(i32::MIN), 0);
    assert_eq!(spout.read_memory_buffer(7), 7);
    assert_eq!(spout.read_memory_buffer(i32::MAX), 2147483647);
}

#[test]
fn handle_is_destroyed_once_whatever_its_role() {
    let mut spout = Spout::new(0x9000).expect("spout");
    assert_eq!(spout.dispose(), Some(Effect::Release(0x9000)));
    assert_eq!(spout.dispose(), None);

    let mut sender = Spout::new(0x9100).expect("spout");
    let _ = sender.sender_set_name(Some("me"));
    assert_eq!(sender.dispose(), Some(Effect::Release(0x9100)));
    assert_eq!(sender.dispose(), None);
    assert_eq!(sender.role(), Role::Sender);

    let mut receiver = Spout::new(0x9200).expect("spout");
    let _ = receiver.receiver_set_name(None);
    assert_eq!(receiver.dispose(), Some(Effect::Release(0x9200)));
    assert_eq!(receiver.dispose(), None);
}

#[test]
fn destroyed_handle_answers_nothing() {
    let mut spout = Spout::new(0x9000).expect("spout");
    let _ = spout.dispose();
    let pixels = vec![0u8; 16];
    let buf = name_buffer(b"Sender A");
    assert_eq!(spout.as_ptr(), None);
    assert_eq!(spout.as_sender(), None);
    assert_eq!(spout.as_receiver(), None);
    assert!(spout.sender_set_name(Some("me")).is_none());
    assert_eq!(spout.sender_set_format(), None);
    assert_eq!(spout.sender_send_texture(), None);
    assert_eq!(spout.sender_send_fbo(), None);
    assert_eq!(spout.sender_send_image(&pixels, 2, 2, GL_RGBA), None);
    assert!(spout.receiver_set_name(None).is_none());
    assert_eq!(spout.receiver_receive_texture(), None);
    assert_eq!(spout.receiver_receive_image(&pixels, 2, 2, GL_RGBA), None);
    assert_eq!(spout.sender_name(Some(b"me")), None);
    assert_eq!(spout.receiver_sender_name(true, &buf), None);
    assert_eq!(spout.sender_name_at(true, &buf), None);
    assert_eq!(spout.active_sender(true, &buf), None);
    assert!(spout.find_sender_name("Sender A").is_none());
    assert!(spout.set_active_sender(None).is_none());
    assert!(spout.sender_info_request("Sender A").is_none());
    assert!(spout.sender_info(true, 1, 1, 0, 0).is_none());
    assert!(spout.set_frame_sync(None).is_none());
    assert!(spout.wait_frame_sync(None).is_none());
    assert!(spout.write_memory_buffer("Sender A", b"x").is_none());
    assert!(spout.read_memory_buffer_request("Sender A", &pixels).is_none());
    assert_eq!(spout.role(), Role::Unassigned);
}

#[test]
fn all_calls_that_are_made_belong_to_one_role() {
    let length = 8u32;
    for code in 0..2u32.pow(length) {
        let mut spout = Spout::new(0x9000).expect("spout");
        let mut made: Vec<Role> = Vec::new();
        let mut rest = code;
        for _ in 0..length {
            let role = if rest % 2 == 0 { Role::Sender } else { Role::Receiver };
            rest /= 2;
            let target = match role {
                Role::Sender => spout.sender_send_texture(),
                _ => spout.receiver_receive_texture(),
            };
            if target.is_some() {
                made.push(role);
            }
        }
        let first = if code % 2 == 0 { Role::Sender } else { Role::Receiver };
        assert!(!made.is_empty());
        assert!(made.iter().all(|r| *r == first));
        assert_eq!(spout.role(), first);
    }
}

#[test]
fn queries_pass_the_native_answer_on() {
    let spout = Spout::new(0x9000).expect("spout");
    assert!(spout.sender_is_initialized(true));
    assert!(!spout.sender_is_initialized(false));
    assert_eq!(spout.sender_width(1920), 1920);
    assert_eq!(spout.sender_height(1080), 1080);
    assert_eq!(spout.sender_format(87), 87);
    assert_eq!(spout.sender_frame(12345678901), 12345678901);
    assert!(spout.receiver_is_frame_new(true));
    assert!(spout.receiver_is_updated(true));
    assert!(spout.receiver_is_connected(true));
    assert!(!spout.receiver_is_connected(false));
    assert_eq!(spout.receiver_sender_width(640), 640);
    assert_eq!(spout.receiver_sender_height(480), 480);
    assert_eq!(spout.receiver_sender_format(28), 28);
    assert_eq!(spout.receiver_sender_frame(-1), -1);
    assert_eq!(spout.shared_texture_id(9), 9);
    assert_eq!(spout.sender_count(3), 3);
    assert!(spout.is_frame_sync_enabled(true));
    assert_eq!(spout.max_senders(64), 64);
    assert!(spout.buffer_mode(true));
    assert_eq!(spout.buffers(2), 2);
    assert!(spout.cpu_mode(true));
}

#[test]
fn receiver_answers_no_question_about_a_sender() {
    let mut spout = Spout::new(0x9000).expect("spout");
    let _ = spout.receiver_set_name(None);
    assert!(!spout.sender_is_initialized(true));
    assert_eq!(spout.sender_width(1920), 0);
    assert_eq!(spout.sender_height(1080), 0);
    assert_eq!(spout.sender_format(87), 0);
    assert_eq!(spout.sender_frame(7), 0);
    assert_eq!(spout.sender_release(), None);
    assert_eq!(spout.receiver_release(), Some(0x9000));
    assert!(spout.receiver_is_connected(true));
    assert_eq!(spout.receiver_sender_width(640), 640);
}

#[test]
fn sender_answers_no_question_about_a_receiver() {
    let mut spout = Spout::new(0x9000).expect("spout");
    let _ = spout.sender_set_name(Some("me"));
    assert!(!spout.receiver_is_frame_new(true));
    assert!(!spout.receiver_is_updated(true));
    assert!(!spout.receiver_is_connected(true));
    assert_eq!(spout.receiver_sender_width(640), 0);
    assert_eq!(spout.receiver_sender_height(480), 0);
    assert_eq!(spout.receiver_sender_format(28), 0);
    assert_eq!(spout.receiver_sender_frame(7), 0);
    assert_eq!(spout.receiver_release(), None);
    assert_eq!(spout.sender_release(), Some(0x9000));
    assert_eq!(spout.sender_width(1920), 1920);
}

#[test]
fn calls_of_either_role_go_through_for_both() {
    let mut sender = Spout::new(0x9000).expect("spout");
    let _ = sender.sender_set_name(Some("me"));
    let mut receiver = Spout::new(0x9100).expect("spout");
    let _ = receiver.receiver_set_name(None);
    for (spout, address) in [(&sender, 0x9000), (&receiver, 0x9100)] {
        assert_eq!(spout.bind_shared_texture(), Some(address));
        assert_eq!(spout.unbind_shared_texture(), Some(address));
        assert_eq!(spout.enable_frame_sync(), Some(address));
        assert_eq!(spout.close_frame_sync(), Some(address));
        assert_eq!(spout.set_buffer_mode(), Some(address));
        assert_eq!(spout.set_buffers(), Some(address));
        assert_eq!(spout.set_cpu_mode(), Some(address));
        assert_eq!(spout.sender_count(2), 2);
    }
}

#[test]
fn destroyed_handle_answers_every_question_with_nothing() {
    let mut spout = Spout::new(0x9000).expect("spout");
    let _ = spout.dispose();
    assert!(!spout.sender_is_initialized(true));
    assert_eq!(spout.sender_width(1920), 0);
    assert_eq!(spout.sender_frame(7), 0);
    assert!(!spout.receiver_is_connected(true));
    assert_eq!(spout.receiver_sender_frame(7), 0);
    assert_eq!(spout.shared_texture_id(9), 0);
    assert_eq!(spout.sender_count(3), 0);
    assert!(!spout.is_frame_sync_enabled(true));
    assert_eq!(spout.max_senders(64), 0);
    assert!(!spout.buffer_mode(true));
    assert_eq!(spout.buffers(2), 0);
    assert!(!spout.cpu_mode(true));
    assert_eq!(spout.sender_release(), None);
    assert_eq!(spout.receiver_release(), None);
    assert_eq!(spout.bind_shared_texture(), None);
    assert_eq!(spout.unbind_shared_texture(), None);
    assert_eq!(spout.enable_frame_sync(), None);
    assert_eq!(spout.close_frame_sync(), None);
    assert_eq!(spout.set_buffer_mode(), None);
    assert_eq!(spout.set_buffers(), None);
    assert_eq!(spout.set_cpu_mode(), None);
}

#[test]
fn calls_are_plain_data() {
    let spout = Spout::new(0x9000).expect("spout");
    assert_eq!(
        spout.find_sender_name("A"),
        Some(NamedCall { object: 0x9000, name: Some(vec![b'A', 0]) })
    );
    assert_eq!(
        spout.write_memory_buffer("A", &[1, 2, 3]),
        Some(BufferCall { object: 0x9000, name: vec![b'A', 0], length: 3 })
    );
}

#[test]
fn receiver_has_no_name_as_a_sender() {
    let mut spout = Spout::new(0x9000).expect("spout");
    assert_eq!(spout.sender_name(Some(b"me")), Some("me".to_string()));
    let _ = spout.receiver_set_name(None);
    assert_eq!(spout.sender_name(Some(b"me")), None);
    let buf = name_buffer(b"Sender A");
    assert_eq!(spout.receiver_sender_name(true, &buf), Some("Sender A".to_string()));
    assert_eq!(spout.sender_name_at(true, &buf), Some("Sender A".to_string()));
    assert_eq!(spout.active_sender(true, &buf), Some("Sender A".to_string()));
}

#[test]
fn sender_receives_from_no_named_sender() {
    let mut spout = Spout::new(0x9000).expect("spout");
    let buf = name_buffer(b"Sender A");
    assert_eq!(spout.receiver_sender_name(true, &buf), Some("Sender A".to_string()));
    let _ = spout.sender_set_name(Some("me"));
    assert_eq!(spout.receiver_sender_name(true, &buf), None);
    assert_eq!(spout.sender_name(Some(b"me")), Some("me".to_string()));
    assert_eq!(spout.sender_name_at(true, &buf), Some("Sender A".to_string()));
    assert_eq!(spout.active_sender(true, &buf), Some("Sender A".to_string()));
}
