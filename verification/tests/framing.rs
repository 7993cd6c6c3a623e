use pendulum::command::{CommandPort, COMMAND_FRAME_CAPACITY};
use pendulum::proxy::UpstreamSource;
use pendulum::tmc6300::{commutation_step, commutation_step_count, six_step_commutation};

#[test]
fn frames_are_split_on_zero() {
    let mut port = CommandPort::new();
    let bytes = [3u8, 1, 2, 0, 9, 9, 0, 7];
    let (next, frame) = port.scan(&bytes, 0);
    assert_eq!(next, 4);
    assert_eq!(frame.unwrap(), vec![3, 1, 2]);
    let (next, frame) = port.scan(&bytes, next);
    assert_eq!(next, 7);
    assert_eq!(frame.unwrap(), vec![9, 9]);
    let (next, frame) = port.scan(&bytes, next);
    assert_eq!(next, 8);
    assert!(frame.is_none());
    assert_eq!(port.pending_len(), 1);
    assert_eq!(port.push_byte(0), Some(vec![7]));
    assert_eq!(port.push_byte(0), Some(vec![]));
}

#[test]
fn overlong_frames_are_dropped() {
    let mut port = CommandPort::new();
    for _ in 0..COMMAND_FRAME_CAPACITY {
        assert_eq!(port.push_byte(5), None);
    }
    assert_eq!(port.pending_len(), 512);
    assert_eq!(port.push_byte(6), None);
    assert_eq!(port.pending_len(), 0);
    assert_eq!(port.push_byte(1), None);
    assert_eq!(port.push_byte(0), Some(vec![1]));
}

#[test]
fn full_frame_round_trips() {
    let mut port = CommandPort::new();
    let mut bytes: Vec<u8> = (0..512).map(|i| (i % 255 + 1) as u8).collect();
    let message = bytes.clone();
    bytes.push(0);
    let (next, frame) = port.scan(&bytes, 0);
    assert_eq!(next, 513);
    assert_eq!(frame.unwrap(), message);
}

#[test]
fn six_step_table() {
    let steps = six_step_commutation();
    let names: Vec<&str> = steps.iter().map(|s| s.name).collect();
    assert_eq!(names, ["U+ V-", "U+ W-", "V+ W-", "V+ U-", "W+ U-", "W+ V-"]);
    assert_eq!(steps[0].levels(), [true, false, false, true, false, false]);
    assert_eq!(steps[3].levels(), [false, true, true, false, false, false]);
    assert_eq!(steps[5].levels(), [false, false, false, true, true, false]);
    for step in steps {
        let l = step.levels();
        for phase in 0..3 {
            assert!(!(l[2 * phase] && l[2 * phase + 1]));
        }
        assert_eq!(l.iter().filter(|b| **b).count(), 2);
    }
    assert_eq!(commutation_step_count(), 6);
    assert_eq!(commutation_step(7).name, "U+ W-");
    assert_eq!(commutation_step(7).levels(), steps[1].levels());
    assert_eq!(commutation_step(12).name, "U+ V-");
}

#[test]
fn upstream_descriptions() {
    let tcp = UpstreamSource::Tcp { addr: "127.0.0.1:7001".to_string() };
    assert_eq!(tcp.description(), "tcp:127.0.0.1:7001");
    let serial = UpstreamSource::Serial { port: "/dev/ttyUSB0".to_string(), baud: 115_200 };
    assert_eq!(serial.description(), "serial:/dev/ttyUSB0@115200");
    let zero = UpstreamSource::Serial { port: "x".to_string(), baud: 0 };
    assert_eq!(zero.description(), "serial:x@0");
    let max = UpstreamSource::Serial { port: "".to_string(), baud: u32::MAX };
    assert_eq!(max.description(), "serial:@4294967295");
}

#[test]
fn poll_returns_first_frame_that_decodes() {
    // Frames of two bytes decode (to their sum); others do not.
    let decode = |f: &Vec<u8>| if f.len() == 2 { Some(f[0] as u32 + f[1] as u32) } else { None };
    let mut port = CommandPort::new();
    let chunk = [1u8, 0, 2, 3, 0, 4, 5, 0, 6];
    assert_eq!(port.poll(&chunk, decode), Some(5));
    // The bytes after the chosen frame's delimiter were dropped.
    assert_eq!(port.pending_len(), 0);

    let mut port = CommandPort::new();
    assert_eq!(port.poll(&[9u8, 0, 7, 7, 7], decode), None);
    assert_eq!(port.pending_len(), 3);
    assert_eq!(port.poll(&[0u8], decode), None);
    assert_eq!(port.pending_len(), 0);

    let mut port = CommandPort::new();
    assert_eq!(port.poll(&[8u8], decode), None);
    assert_eq!(port.poll(&[1u8, 0], decode), Some(9));
}
