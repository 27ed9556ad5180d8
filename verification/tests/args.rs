use spi_poll::args::{Args, PollPolicy, DEFAULT_BUFFER_SIZE, DEFAULT_READ_INTERVAL};
use spi_poll::error::{
    ErrorKind, PollError, EXIT_CONFIGURE_FAILED, EXIT_DEVICE_NOT_FOUND, EXIT_OK, EXIT_OPEN_FAILED,
    EXIT_READ_FAILED,
};

#[test]
fn defaults_are_500_ms_and_32_bytes() {
    assert_eq!(DEFAULT_READ_INTERVAL, 500);
    assert_eq!(DEFAULT_BUFFER_SIZE, 32);
    let args = Args::new(String::from("/dev/spidev0.0"));
    assert_eq!(
        args,
        Args {
            dev: String::from("/dev/spidev0.0"),
            once: false,
            read_interval: 500,
            buffer_size: 32,
        }
    );
}

#[test]
fn once_flag_selects_single_shot() {
    let args = Args { dev: String::from("d"), once: true, read_interval: 250, buffer_size: 4 };
    assert_eq!(args.policy(), PollPolicy::SingleShot);
}

#[test]
fn without_once_the_policy_is_continuous_with_the_interval() {
    let args = Args { dev: String::from("d"), once: false, read_interval: 250, buffer_size: 4 };
    assert_eq!(args.policy(), PollPolicy::Continuous { interval_ms: 250 });
    let args = Args { dev: String::from("d"), once: false, read_interval: 0, buffer_size: 4 };
    assert_eq!(args.policy(), PollPolicy::Continuous { interval_ms: 0 });
    assert_eq!(
        Args::new(String::from("d")).policy(),
        PollPolicy::Continuous { interval_ms: 500 }
    );
}

#[test]
fn exit_codes_are_ten_to_thirteen() {
    assert_eq!(EXIT_OK, 0);
    assert_eq!(EXIT_DEVICE_NOT_FOUND, 10);
    assert_eq!(EXIT_OPEN_FAILED, 11);
    assert_eq!(EXIT_CONFIGURE_FAILED, 12);
    assert_eq!(EXIT_READ_FAILED, 13);
    assert_eq!(ErrorKind::DeviceNotFound.exit_code(), 10);
    assert_eq!(ErrorKind::OpenFailed.exit_code(), 11);
    assert_eq!(ErrorKind::ConfigureFailed.exit_code(), 12);
    assert_eq!(ErrorKind::ReadFailed.exit_code(), 13);
}

#[test]
fn error_carries_the_code_of_its_kind() {
    let error = PollError { kind: ErrorKind::ConfigureFailed, detail: String::from("EINVAL") };
    assert_eq!(error.exit_code(), 12);
    let error = PollError { kind: ErrorKind::DeviceNotFound, detail: String::from("/dev/none") };
    assert_eq!(error.exit_code(), 10);
}
