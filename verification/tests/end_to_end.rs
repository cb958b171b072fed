use win_ring0::driver::{DriverImage, InstallerDescriptor};
use win_ring0::ioctl::IOCTL;
use win_ring0::request::{IoInput, IoRequest};
use win_ring0::WinRing0;

/// Stands in for the operating system and the driver: a service that has to
/// be installed before it can be opened, a keyboard controller behind port
/// 0x60 and a serial port behind 0x3F8.
struct DriverDouble {
    installed: Option<(String, String, u32, usize)>,
    handles: u32,
    released: u32,
    serial_out: Vec<u8>,
}

impl DriverDouble {
    fn new() -> DriverDouble {
        DriverDouble { installed: None, handles: 0, released: 0, serial_out: Vec::new() }
    }

    fn install(&mut self, descriptor: &InstallerDescriptor) -> Result<(), String> {
        if self.installed.is_some() {
            return Err("The specified service already exists.".to_string());
        }
        self.installed = Some((
            descriptor.device_description.clone(),
            descriptor.device_id.clone(),
            descriptor.device_type,
            descriptor.driver_bin.len(),
        ));
        Ok(())
    }

    fn open(&mut self) -> Result<(), String> {
        if self.installed.is_none() {
            return Err("The specified service does not exist as an installed service.".to_string());
        }
        self.handles += 1;
        Ok(())
    }

    fn close(&mut self) -> Result<(), String> {
        if self.handles == 0 {
            return Err("The handle is invalid.".to_string());
        }
        self.handles -= 1;
        self.released += 1;
        Ok(())
    }

    fn uninstall(&mut self) -> Result<(), String> {
        match self.installed.take() {
            Some(_) => Ok(()),
            None => {
                Err("The specified service does not exist as an installed service.".to_string())
            }
        }
    }

    fn control(&mut self, request: &IoRequest) -> Result<u64, String> {
        if self.handles == 0 {
            return Err("The handle is invalid.".to_string());
        }
        match &request.input {
            IoInput::Scalar(0x60) if request.code == IOCTL::OLS_READ_IO_PORT_BYTE.code() => {
                Ok(0x1C)
            }
            IoInput::Scalar(0x10) if request.code == IOCTL::OLS_READ_MSR.code() => {
                Ok(0x0000_0123_4567_89AB)
            }
            IoInput::Buffer(bytes) if request.code == IOCTL::OLS_WRITE_IO_PORT_BYTE.code() => {
                if bytes.len() != 5 {
                    return Err("The parameter is incorrect.".to_string());
                }
                if bytes[0..4] == 0x3F8u32.to_le_bytes() {
                    self.serial_out.push(bytes[4]);
                }
                Ok(0)
            }
            _ => Err("Incorrect function.".to_string()),
        }
    }
}

fn close(client: &mut WinRing0, driver: &mut DriverDouble) -> Result<(), String> {
    if client.close() {
        driver.close()
    } else {
        Ok(())
    }
}

#[test]
fn install_open_read_port_close_uninstall() {
    let mut driver = DriverDouble::new();
    let mut client = WinRing0::new(DriverImage::host(), vec![0x4D, 0x5A, 0x90, 0x00]).unwrap();

    assert_eq!(driver.install(client.descriptor()), Ok(()));
    assert_eq!(
        driver.installed,
        Some(("Rust winRing0 driver".to_string(), "WinRing0_1_2_0".to_string(), 40000, 4))
    );

    let opened = driver.open();
    assert_eq!(client.open(opened), Ok(()));

    let request = client.read_io_port_byte(0x60).unwrap();
    let reply = driver.control(&request);
    let value = request.complete(reply).unwrap();
    assert!(value <= 255);
    assert_eq!(value, 0x1C);

    assert_eq!(close(&mut client, &mut driver), Ok(()));
    assert_eq!(driver.uninstall(), Ok(()));
    assert_eq!(driver.handles, 0);
    assert_eq!(driver.released, 1);
}

#[test]
fn open_before_install_is_reported_and_nothing_is_issued() {
    let mut driver = DriverDouble::new();
    let mut client = WinRing0::new(DriverImage::host(), Vec::new()).unwrap();

    let opened = driver.open();
    let reported = client.open(opened);
    assert_eq!(
        reported,
        Err("The specified service does not exist as an installed service.".to_string())
    );
    assert!(!client.is_open());
    assert_eq!(client.readMsr(0x10), Err("Error reading msr: driver is not open".to_string()));
    assert_eq!(close(&mut client, &mut driver), Ok(()));
    assert_eq!(driver.released, 0);
}

#[test]
fn handle_is_never_released_twice() {
    let mut driver = DriverDouble::new();
    let mut client = WinRing0::new(DriverImage::host(), Vec::new()).unwrap();
    assert_eq!(driver.install(client.descriptor()), Ok(()));
    let opened = driver.open();
    assert_eq!(client.open(opened), Ok(()));

    assert_eq!(close(&mut client, &mut driver), Ok(()));
    assert_eq!(close(&mut client, &mut driver), Ok(()));
    assert_eq!(close(&mut client, &mut driver), Ok(()));
    assert_eq!(driver.released, 1);
    assert_eq!(driver.handles, 0);
}

#[test]
fn read_msr_through_the_double() {
    let mut driver = DriverDouble::new();
    let mut client = WinRing0::new(DriverImage::host(), Vec::new()).unwrap();
    assert_eq!(driver.install(client.descriptor()), Ok(()));
    let opened = driver.open();
    assert_eq!(client.open(opened), Ok(()));

    let known = client.readMsr(0x10).unwrap();
    let reply = driver.control(&known);
    assert_eq!(known.complete(reply), Ok(0x0000_0123_4567_89AB));

    let unknown = client.readMsr(0xFFFF_FFFF).unwrap();
    let reply = driver.control(&unknown);
    assert_eq!(
        unknown.complete(reply),
        Err("Error reading msr: Incorrect function.".to_string())
    );

    let raw = client.io(IOCTL::OLS_READ_MSR, 0x10).unwrap();
    let reply = driver.control(&raw);
    assert_eq!(raw.complete(reply), Ok(0x0000_0123_4567_89AB));

    let raw = client.io(IOCTL::OLS_HALT, 0).unwrap();
    let reply = driver.control(&raw);
    assert_eq!(raw.complete(reply), Err("Error doing IO: Incorrect function.".to_string()));
}

#[test]
fn write_port_through_the_double() {
    let mut driver = DriverDouble::new();
    let mut client = WinRing0::new(DriverImage::host(), Vec::new()).unwrap();
    assert_eq!(driver.install(client.descriptor()), Ok(()));
    let opened = driver.open();
    assert_eq!(client.open(opened), Ok(()));

    for value in [0x41u32, 0x142, 0xFFFF_FF43] {
        let request = client.write_io_port_byte(0x3F8, value).unwrap();
        let reply = driver.control(&request);
        assert_eq!(request.complete(reply), Ok(0));
    }
    assert_eq!(driver.serial_out, vec![0x41, 0x42, 0x43]);
}

#[test]
fn second_install_is_reported_and_open_still_works() {
    let mut driver = DriverDouble::new();
    let mut client = WinRing0::new(DriverImage::host(), Vec::new()).unwrap();
    assert_eq!(driver.install(client.descriptor()), Ok(()));
    assert_eq!(
        driver.install(client.descriptor()),
        Err("The specified service already exists.".to_string())
    );
    let opened = driver.open();
    assert_eq!(client.open(opened), Ok(()));
    assert!(client.is_open());
}
