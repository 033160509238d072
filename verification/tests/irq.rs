use uio::irq::{irq_command, IRQ_WORD_LEN};
use uio::linux::UioDevice;

fn device() -> UioDevice {
    UioDevice::try_new(0).finish(Ok(3)).unwrap()
}

#[test]
fn commands_are_one_and_zero_in_machine_order() {
    assert_eq!(IRQ_WORD_LEN, 4);
    assert_eq!(irq_command(true), 1u32.to_ne_bytes());
    assert_eq!(irq_command(false), 0u32.to_ne_bytes());
    assert_eq!(irq_command(false), [0, 0, 0, 0]);
    assert_ne!(irq_command(true), irq_command(false));
}

#[test]
fn enable_then_disable_leaves_interrupts_off() {
    let mut dev = device();
    assert!(!dev.irq_enabled());
    dev.irq_enable(Ok(4)).unwrap();
    assert!(dev.irq_enabled());
    dev.irq_disable(Ok(4)).unwrap();
    assert!(!dev.irq_enabled());
    assert_eq!(dev.get_num(), 0);
}

#[test]
fn switching_twice_is_as_switching_once() {
    let mut dev = device();
    dev.irq_enable(Ok(4)).unwrap();
    dev.irq_enable(Ok(4)).unwrap();
    assert!(dev.irq_enabled());
    dev.irq_disable(Ok(4)).unwrap();
    dev.irq_disable(Ok(4)).unwrap();
    assert!(!dev.irq_enabled());
}

#[test]
fn failed_write_leaves_the_device_as_it_was() {
    let mut dev = device();
    let e = dev
        .irq_enable(Err(std::io::Error::from(std::io::ErrorKind::BrokenPipe)))
        .unwrap_err();
    assert_eq!(e.kind(), std::io::ErrorKind::BrokenPipe);
    assert!(!dev.irq_enabled());

    dev.irq_enable(Ok(4)).unwrap();
    let e = dev
        .irq_disable(Err(std::io::Error::from(std::io::ErrorKind::Interrupted)))
        .unwrap_err();
    assert_eq!(e.kind(), std::io::ErrorKind::Interrupted);
    assert!(dev.irq_enabled());
}

#[test]
fn short_write_is_an_error() {
    let mut dev = device();
    for n in [0usize, 1, 2, 3, 5] {
        let e = dev.irq_enable(Ok(n)).unwrap_err();
        assert_eq!(e.kind(), std::io::ErrorKind::WriteZero);
        assert!(!dev.irq_enabled());
    }
    dev.irq_enable(Ok(4)).unwrap();
    for n in [0usize, 1, 2, 3, 5] {
        let e = dev.irq_disable(Ok(n)).unwrap_err();
        assert_eq!(e.kind(), std::io::ErrorKind::WriteZero);
        assert!(dev.irq_enabled());
    }
}

#[test]
fn wait_returns_the_count_that_the_kernel_wrote() {
    let mut dev = device();
    assert_eq!(dev.irq_wait(Ok(4), 5u32.to_ne_bytes()).unwrap(), 5);
    assert_eq!(dev.irq_wait(Ok(4), 0u32.to_ne_bytes()).unwrap(), 0);
    assert_eq!(dev.irq_wait(Ok(4), 0x0102_0304u32.to_ne_bytes()).unwrap(), 0x0102_0304);
    assert_eq!(dev.irq_wait(Ok(4), u32::MAX.to_ne_bytes()).unwrap(), u32::MAX);
    assert!(!dev.irq_enabled());
}

#[test]
fn wait_does_not_switch_interrupts() {
    let mut dev = device();
    dev.irq_enable(Ok(4)).unwrap();
    dev.irq_wait(Ok(4), 1u32.to_ne_bytes()).unwrap();
    assert!(dev.irq_enabled());
}

#[test]
fn failed_or_short_read_is_an_error() {
    let mut dev = device();
    let e = dev
        .irq_wait(Err(std::io::Error::from(std::io::ErrorKind::Interrupted)), [0; 4])
        .unwrap_err();
    assert_eq!(e.kind(), std::io::ErrorKind::Interrupted);
    for n in [0usize, 1, 2, 3] {
        let e = dev.irq_wait(Ok(n), 9u32.to_ne_bytes()).unwrap_err();
        assert_eq!(e.kind(), std::io::ErrorKind::UnexpectedEof);
    }
}
