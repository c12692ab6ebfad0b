use rusty_syphon_spout::{
    Effect, MetalServer, OpenGLServer, Phase, ServerRequest, SyphonOptions,
};

/// A stand-in for the native side. It hands out addresses, knows which
/// clients are attached to which server, and writes down every lifetime call
/// that reaches it, in order.
struct FakeNative {
    next: usize,
    names: Vec<(usize, Option<Vec<u8>>)>,
    clients: Vec<(usize, usize)>,
    calls: Vec<Effect>,
}

impl FakeNative {
    fn new() -> Self {
        FakeNative { next: 0x1000, names: Vec::new(), clients: Vec::new(), calls: Vec::new() }
    }

    fn create_server(&mut self, request: &ServerRequest) -> usize {
        let addr = self.next;
        self.next += 0x100;
        self.names.push((addr, request.name.clone()));
        addr
    }

    fn has_clients(&self, server: usize) -> bool {
        self.clients.iter().any(|(s, _)| *s == server)
    }

    fn perform(&mut self, steps: Vec<Effect>) {
        for step in steps {
            self.calls.push(step);
        }
    }

    fn perform_one(&mut self, step: Option<Effect>) {
        if let Some(step) = step {
            self.calls.push(step);
        }
    }

    fn count(&self, wanted: Effect) -> usize {
        self.calls.iter().filter(|c| **c == wanted).count()
    }
}

fn opengl_server(native: &mut FakeNative, name: Option<&str>) -> OpenGLServer {
    let request = OpenGLServer::request(name, 0x10, None).expect("request");
    let raw = native.create_server(&request);
    OpenGLServer::new(request, raw).expect("server")
}

fn metal_server(native: &mut FakeNative, name: Option<&str>) -> MetalServer {
    let request = MetalServer::request(name, 0x10, None).expect("request");
    let raw = native.create_server(&request);
    MetalServer::new(request, raw).expect("server")
}

#[test]
fn server_request_carries_name_context_and_options() {
    let options = SyphonOptions::new(0x900).expect("options");
    let request = OpenGLServer::request(Some("test-pub"), 0x10, Some(&options)).expect("request");
    assert_eq!(request.name, Some(b"test-pub\0".to_vec()));
    assert_eq!(request.context, 0x10);
    assert_eq!(request.options, 0x900);
}

#[test]
fn server_without_name_and_options_passes_nulls() {
    let request = MetalServer::request(None, 0x10, None).expect("request");
    assert_eq!(request.name, None);
    assert_eq!(request.context, 0x10);
    assert_eq!(request.options, 0);
}

#[test]
fn server_name_with_zero_goes_out_as_null() {
    let request = OpenGLServer::request(Some("te\0st"), 0x10, None).expect("request");
    assert_eq!(request.name, None);
}

#[test]
fn null_context_makes_no_server() {
    assert!(OpenGLServer::request(Some("test-pub"), 0, None).is_none());
    assert!(MetalServer::request(Some("test-pub"), 0, None).is_none());
}

#[test]
fn released_options_make_no_server() {
    let mut options = SyphonOptions::new(0x900).expect("options");
    let _ = options.dispose();
    assert!(OpenGLServer::request(None, 0x10, Some(&options)).is_none());
    assert!(MetalServer::request(None, 0x10, Some(&options)).is_none());
}

#[test]
fn failed_native_construction_makes_no_server() {
    let request = OpenGLServer::request(None, 0x10, None).expect("request");
    assert!(OpenGLServer::new(request, 0).is_none());
    let request = MetalServer::request(None, 0x10, None).expect("request");
    assert!(MetalServer::new(request, 0).is_none());
}

#[test]
fn request_made_by_hand_with_null_context_makes_no_server() {
    let request = ServerRequest { name: None, context: 0, options: 0 };
    assert!(OpenGLServer::new(request, 0x1000).is_none());
    let request = ServerRequest { name: None, context: 0, options: 0 };
    assert!(MetalServer::new(request, 0x1000).is_none());
}

#[test]
fn new_server_has_no_clients() {
    let mut native = FakeNative::new();
    let server = opengl_server(&mut native, Some("test-pub"));
    assert_eq!(native.names, vec![(0x1000, Some(b"test-pub\0".to_vec()))]);
    let reply = match server.as_ptr() {
        Some(p) => native.has_clients(p),
        None => false,
    };
    assert!(!server.has_clients(reply));
    assert_eq!(server.phase(), Phase::Created);
}

#[test]
fn server_with_a_client_has_clients() {
    let mut native = FakeNative::new();
    let server = metal_server(&mut native, Some("test-pub"));
    native.clients.push((0x1000, 0x2000));
    let reply = match server.as_ptr() {
        Some(p) => native.has_clients(p),
        None => false,
    };
    assert!(server.has_clients(reply));
    let server = opengl_server(&mut native, Some("other"));
    assert!(!server.has_clients(native.has_clients(0x1100)));
    assert!(server.has_clients(true));
}

#[test]
fn server_dropped_at_once_is_stopped_then_released() {
    let mut native = FakeNative::new();
    let mut server = opengl_server(&mut native, Some("test-pub"));
    native.perform(server.dispose());
    assert_eq!(native.calls, vec![Effect::Stop(0x1000), Effect::Release(0x1000)]);
    assert_eq!(server.phase(), Phase::Released);

    let mut native = FakeNative::new();
    let mut server = metal_server(&mut native, None);
    native.perform(server.dispose());
    assert_eq!(native.calls, vec![Effect::Stop(0x1000), Effect::Release(0x1000)]);
}

#[test]
fn stop_twice_releases_nothing() {
    let mut native = FakeNative::new();
    let mut server = opengl_server(&mut native, None);
    native.perform_one(server.stop());
    assert_eq!(server.phase(), Phase::Stopped);
    native.perform_one(server.stop());
    assert_eq!(server.phase(), Phase::Stopped);
    assert_eq!(native.calls, vec![Effect::Stop(0x1000), Effect::Stop(0x1000)]);
    assert_eq!(native.count(Effect::Release(0x1000)), 0);

    let mut native = FakeNative::new();
    let mut server = metal_server(&mut native, None);
    native.perform_one(server.stop());
    native.perform_one(server.stop());
    assert_eq!(native.count(Effect::Release(0x1000)), 0);
    assert_eq!(native.count(Effect::Stop(0x1000)), 2);
    assert_eq!(server.phase(), Phase::Stopped);
}

#[test]
fn server_dropped_after_a_stop_is_stopped_and_released() {
    let mut native = FakeNative::new();
    let mut server = opengl_server(&mut native, None);
    assert_eq!(server.stop(), Some(Effect::Stop(0x1000)));
    assert_eq!(server.dispose(), vec![Effect::Stop(0x1000), Effect::Release(0x1000)]);
    assert_eq!(server.phase(), Phase::Released);
    assert!(server.dispose().is_empty());

    let mut server = metal_server(&mut native, None);
    assert_eq!(server.publish_frame(0x30, 0x40), Some(0x1100));
    assert_eq!(server.stop(), Some(Effect::Stop(0x1100)));
    assert_eq!(server.dispose(), vec![Effect::Stop(0x1100), Effect::Release(0x1100)]);
    assert_eq!(server.phase(), Phase::Released);
}

#[test]
fn release_happens_once_whatever_is_asked() {
    let mut native = FakeNative::new();
    let mut server = metal_server(&mut native, None);
    let _ = server.publish_frame(0x30, 0x40);
    native.perform(server.dispose());
    native.perform_one(server.stop());
    native.perform(server.dispose());
    let _ = server.publish_frame(0x30, 0x40);
    native.perform(server.dispose());
    assert_eq!(native.calls, vec![Effect::Stop(0x1000), Effect::Release(0x1000)]);
    assert_eq!(native.count(Effect::Release(0x1000)), 1);
}

#[test]
fn released_server_answers_nothing() {
    let mut native = FakeNative::new();
    let mut server = opengl_server(&mut native, None);
    native.perform(server.dispose());
    assert_eq!(server.as_ptr(), None);
    assert_eq!(server.publish_frame(), None);
    assert_eq!(server.bind_to_draw_frame_request(), None);
    assert!(!server.bind_to_draw_frame(true));
    assert_eq!(server.unbind_and_publish(), None);
    assert_eq!(server.new_frame_image_request(), None);
    assert!(server.new_frame_image(0x3000).is_none());
    assert!(server.server_description(0x500).is_none());
    assert!(server.set_name(Some("late")).is_none());
    assert_eq!(server.name(Some(b"late")), None);
    assert_eq!(server.stop(), None);
    assert!(!server.has_clients(true));
    assert!(server.dispose().is_empty());
}

#[test]
fn publishing_leaves_the_server_running() {
    let mut native = FakeNative::new();
    let mut server = opengl_server(&mut native, None);
    assert_eq!(server.phase(), Phase::Created);
    assert_eq!(server.publish_frame(), Some(0x1000));
    assert_eq!(server.phase(), Phase::Running);
    assert_eq!(server.publish_frame(), Some(0x1000));
    assert_eq!(server.phase(), Phase::Running);
}

#[test]
fn stopped_server_takes_no_call() {
    let mut native = FakeNative::new();
    let mut server = opengl_server(&mut native, None);
    native.perform_one(server.stop());
    assert_eq!(server.publish_frame(), None);
    assert_eq!(server.bind_to_draw_frame_request(), None);
    assert_eq!(server.new_frame_image_request(), None);
    assert_eq!(server.phase(), Phase::Stopped);
    assert_eq!(server.as_ptr(), None);
    assert!(!server.has_clients(true));
    assert_eq!(server.name(Some(b"late")), None);
    assert!(server.set_name(Some("late")).is_none());
    assert!(server.server_description(0x500).is_none());
    assert_eq!(server.context(), 0x10);

    let mut server = metal_server(&mut native, None);
    native.perform_one(server.stop());
    assert_eq!(server.publish_frame(0x30, 0x40), None);
    assert_eq!(server.new_frame_image_request(), None);
    assert_eq!(server.as_ptr(), None);
    assert!(!server.has_clients(true));
    assert_eq!(server.device(), 0x10);
}

#[test]
fn metal_server_publishes_from_a_texture_and_a_command_buffer() {
    let mut native = FakeNative::new();
    let mut server = metal_server(&mut native, None);
    assert_eq!(server.publish_frame(0x30, 0x40), Some(0x1000));
    assert_eq!(server.phase(), Phase::Running);
}

#[test]
fn metal_server_forwards_no_null_texture_or_command_buffer() {
    let mut native = FakeNative::new();
    let mut server = metal_server(&mut native, None);
    assert_eq!(server.publish_frame(0, 0x40), None);
    assert_eq!(server.publish_frame(0x30, 0), None);
    assert_eq!(server.publish_frame(0, 0), None);
    assert_eq!(server.phase(), Phase::Created);
}

#[test]
fn bind_and_unbind_go_in_pairs() {
    let mut native = FakeNative::new();
    let mut server = opengl_server(&mut native, None);
    assert_eq!(server.unbind_and_publish(), None);
    assert_eq!(server.bind_to_draw_frame_request(), Some(0x1000));
    assert!(server.bind_to_draw_frame(true));
    assert!(server.is_drawing());
    assert_eq!(server.bind_to_draw_frame_request(), None);
    assert!(!server.bind_to_draw_frame(true));
    assert_eq!(server.unbind_and_publish(), Some(0x1000));
    assert!(!server.is_drawing());
    assert_eq!(server.phase(), Phase::Running);
    assert_eq!(server.unbind_and_publish(), None);
}

#[test]
fn nothing_is_published_between_bind_and_unbind() {
    let mut native = FakeNative::new();
    let mut server = opengl_server(&mut native, None);
    assert!(server.bind_to_draw_frame(true));
    assert_eq!(server.publish_frame(), None);
    assert_eq!(server.unbind_and_publish(), Some(0x1000));
    assert_eq!(server.publish_frame(), Some(0x1000));
}

#[test]
fn failed_bind_leaves_the_server_as_it_is() {
    let mut native = FakeNative::new();
    let mut server = opengl_server(&mut native, None);
    assert!(!server.bind_to_draw_frame(false));
    assert!(!server.is_drawing());
    assert_eq!(server.unbind_and_publish(), None);
    assert_eq!(server.publish_frame(), Some(0x1000));
}

#[test]
fn stop_gives_up_what_was_being_drawn() {
    let mut native = FakeNative::new();
    let mut server = opengl_server(&mut native, None);
    assert!(server.bind_to_draw_frame(true));
    native.perform_one(server.stop());
    assert!(!server.is_drawing());
    assert_eq!(server.unbind_and_publish(), None);
    native.perform(server.dispose());
    assert_eq!(
        native.calls,
        vec![Effect::Stop(0x1000), Effect::Stop(0x1000), Effect::Release(0x1000)]
    );
}

#[test]
fn server_keeps_its_context_and_never_frees_it() {
    let mut native = FakeNative::new();
    let mut server = opengl_server(&mut native, None);
    assert_eq!(server.context(), 0x10);
    native.perform_one(server.stop());
    native.perform(server.dispose());
    assert!(native.calls.iter().all(|c| c.address() == 0x1000));
    assert_eq!(server.context(), 0x10);

    let mut server = metal_server(&mut native, None);
    assert_eq!(server.device(), 0x10);
    native.perform(server.dispose());
    assert!(native.calls.iter().all(|c| c.address() != 0x10));
}

#[test]
fn server_description_is_owned() {
    let mut native = FakeNative::new();
    let server = opengl_server(&mut native, None);
    assert!(server.server_description(0).is_none());
    let d = server.server_description(0x500).expect("description");
    assert!(d.is_owned());
    assert_eq!(d.as_ptr(), Some(0x500));

    let server = metal_server(&mut native, None);
    assert!(server.server_description(0).is_none());
    assert!(server.server_description(0x600).expect("description").is_owned());
}

#[test]
fn description_outlives_its_server() {
    let mut native = FakeNative::new();
    let mut server = opengl_server(&mut native, None);
    let d = server.server_description(0x500).expect("description");
    let (mut kept, retain) = d.retained_clone().expect("clone");
    native.perform_one(Some(retain));
    native.perform(server.dispose());
    assert_eq!(kept.as_ptr(), Some(0x500));
    native.perform_one(kept.dispose());
    assert_eq!(native.count(Effect::Retain(0x500)), 1);
    assert_eq!(native.count(Effect::Release(0x500)), 1);
}

#[test]
fn server_is_renamed_through_a_c_string() {
    let mut native = FakeNative::new();
    let server = metal_server(&mut native, Some("before"));
    let call = server.set_name(Some("after")).expect("call");
    assert_eq!(call.object, 0x1000);
    assert_eq!(call.name, Some(b"after\0".to_vec()));
    let call = server.set_name(None).expect("call");
    assert_eq!(call.name, None);
    let call = server.set_name(Some("af\0ter")).expect("call");
    assert_eq!(call.name, None);

    let server = opengl_server(&mut native, None);
    let call = server.set_name(Some("after")).expect("call");
    assert_eq!(call.object, 0x1100);
    assert_eq!(call.name, Some(b"after\0".to_vec()));
}

#[test]
fn server_reads_its_name() {
    let mut native = FakeNative::new();
    let server = opengl_server(&mut native, Some("test-pub"));
    assert_eq!(server.name(Some(b"test-pub")), Some("test-pub".to_string()));
    assert_eq!(server.name(None), None);
    assert_eq!(server.name(Some(&[0xc0, 0x80])), None);
    let server = metal_server(&mut native, Some("test-pub"));
    assert_eq!(server.name(Some(b"test-pub")), Some("test-pub".to_string()));
    assert_eq!(server.name(None), None);
}

#[test]
fn server_frame_is_released_once() {
    let mut native = FakeNative::new();
    let mut server = opengl_server(&mut native, None);
    assert_eq!(server.new_frame_image_request(), Some(0x1000));
    assert!(server.new_frame_image(0).is_none());
    let mut image = server.new_frame_image(0x3000).expect("image");
    assert_eq!(image.as_ptr(), Some(0x3000));
    assert_eq!(image.texture_name(42), 42);
    assert_eq!(image.dispose(), Some(Effect::Release(0x3000)));
    assert_eq!(image.dispose(), None);
    assert_eq!(image.as_ptr(), None);
    assert_eq!(image.texture_name(42), 0);

    let mut server = metal_server(&mut native, None);
    assert_eq!(server.new_frame_image_request(), Some(0x1100));
    assert!(server.new_frame_image(0).is_none());
    let mut texture = server.new_frame_image(0x3100).expect("texture");
    assert_eq!(texture.as_ptr(), Some(0x3100));
    assert_eq!(texture.dispose(), Some(Effect::Release(0x3100)));
    assert_eq!(texture.dispose(), None);
}

#[test]
fn server_request_is_plain_data() {
    assert_eq!(
        MetalServer::request(Some("test-pub"), 0x10, None),
        Some(ServerRequest { name: Some(b"test-pub\0".to_vec()), context: 0x10, options: 0 })
    );
    assert_eq!(OpenGLServer::request(Some("test-pub"), 0, None), None);
}
