use subman::{get_test_port, reset_port_counter, PortAllocator, PORT_CEILING, PORT_FLOOR};

#[test]
fn test_port_counter() {
    let mut ports = PortAllocator::new();
    reset_port_counter(&mut ports);
    assert_eq!(get_test_port(&mut ports), 10800);
    assert_eq!(get_test_port(&mut ports), 10801);
    assert_eq!(get_test_port(&mut ports), 10802);
    reset_port_counter(&mut ports);
    assert_eq!(get_test_port(&mut ports), 10800);
}

#[test]
fn ports_wrap_to_floor_after_ceiling() {
    let mut ports = PortAllocator::new();
    let mut last = get_test_port(&mut ports);
    assert_eq!(last, PORT_FLOOR);
    loop {
        let p = get_test_port(&mut ports);
        if last == PORT_CEILING {
            assert_eq!(p, PORT_FLOOR);
            break;
        }
        assert_eq!(p, last + 1);
        last = p;
    }
    assert_eq!(get_test_port(&mut ports), PORT_FLOOR + 1);
    assert_eq!(get_test_port(&mut ports), PORT_FLOOR + 2);
}

#[test]
fn ports_count_from_floor_to_ceiling() {
    let mut ports = PortAllocator::new();
    let n = (PORT_CEILING - PORT_FLOOR) as usize + 1;
    for i in 0..n {
        assert_eq!(get_test_port(&mut ports) as usize, PORT_FLOOR as usize + i);
    }
    assert_eq!(get_test_port(&mut ports), 10800);
}
