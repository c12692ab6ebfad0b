use rusty_syphon_spout::{Effect, Endpoint, Phase, Request};

#[test]
fn null_pointer_gives_no_endpoint() {
    assert!(Endpoint::new(0, None).is_none());
    assert!(Endpoint::new(0, Some(0x7000)).is_none());
}

#[test]
fn new_endpoint_is_created() {
    let endpoint = Endpoint::new(0x1000, Some(0x7000)).expect("endpoint");
    assert_eq!(endpoint.phase(), Phase::Created);
    assert_eq!(endpoint.as_ptr(), Some(0x1000));
    assert_eq!(endpoint.callback(), Some(0x7000));
}

#[test]
fn callback_storage_without_address_is_none() {
    let mut endpoint = Endpoint::new(0x1000, Some(0)).expect("endpoint");
    assert_eq!(endpoint.callback(), None);
    assert_eq!(endpoint.dispose(), vec![Effect::Stop(0x1000), Effect::Release(0x1000)]);
}

#[test]
fn endpoint_goes_through_its_phases() {
    let mut endpoint = Endpoint::new(0x1000, None).expect("endpoint");
    assert_eq!(endpoint.exchange(), Some(0x1000));
    assert_eq!(endpoint.phase(), Phase::Running);
    assert_eq!(endpoint.stop(), Some(Effect::Stop(0x1000)));
    assert_eq!(endpoint.phase(), Phase::Stopped);
    assert_eq!(endpoint.exchange(), None);
    assert_eq!(endpoint.phase(), Phase::Stopped);
    assert_eq!(endpoint.as_ptr(), None);
    assert_eq!(endpoint.stop(), Some(Effect::Stop(0x1000)));
    assert_eq!(endpoint.phase(), Phase::Stopped);
    assert_eq!(endpoint.dispose(), vec![Effect::Stop(0x1000), Effect::Release(0x1000)]);
    assert_eq!(endpoint.phase(), Phase::Released);
    assert_eq!(endpoint.as_ptr(), None);
    assert_eq!(endpoint.exchange(), None);
    assert_eq!(endpoint.stop(), None);
    assert!(endpoint.dispose().is_empty());
    assert_eq!(endpoint.phase(), Phase::Released);
}

fn apply(endpoint: &mut Endpoint, request: Request, trace: &mut Vec<Effect>) {
    match request {
        Request::Query => {
            let _ = endpoint.as_ptr();
        }
        Request::Exchange => {
            let _ = endpoint.exchange();
        }
        Request::Stop => {
            if let Some(step) = endpoint.stop() {
                trace.push(step);
            }
        }
        Request::Dispose => {
            for step in endpoint.dispose() {
                trace.push(step);
            }
        }
    }
}

#[test]
fn every_run_of_requests_releases_at_most_once_and_after_a_stop() {
    let requests = [Request::Query, Request::Exchange, Request::Stop, Request::Dispose];
    let length = 6u32;
    let mut runs = 0u32;
    for code in 0..4u32.pow(length) {
        let mut endpoint = Endpoint::new(0x1000, Some(0x7000)).expect("endpoint");
        let mut trace: Vec<Effect> = Vec::new();
        let mut rest = code;
        let mut disposed = false;
        let mut stops_asked = 0usize;
        for _ in 0..length {
            let request = requests[(rest % 4) as usize];
            rest /= 4;
            apply(&mut endpoint, request, &mut trace);
            if !disposed && (request == Request::Stop || request == Request::Dispose) {
                stops_asked += 1;
            }
            disposed = disposed || request == Request::Dispose;
        }
        let stops = trace.iter().filter(|s| **s == Effect::Stop(0x1000)).count();
        let releases = trace.iter().filter(|s| **s == Effect::Release(0x1000)).count();
        let drops = trace.iter().filter(|s| **s == Effect::DropCallback(0x7000)).count();
        assert_eq!(stops, stops_asked);
        assert_eq!(releases, if disposed { 1 } else { 0 });
        assert_eq!(drops, releases);
        assert_eq!(trace.len(), stops + releases + drops);
        if disposed {
            let release =
                trace.iter().position(|s| *s == Effect::Release(0x1000)).expect("release");
            assert!(release >= 1);
            assert_eq!(trace[release - 1], Effect::Stop(0x1000));
            assert_eq!(trace[release + 1], Effect::DropCallback(0x7000));
            assert_eq!(trace.len(), release + 2);
            assert_eq!(endpoint.phase(), Phase::Released);
        }
        runs += 1;
    }
    assert_eq!(runs, 4096);
}
