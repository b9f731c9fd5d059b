use rrub::bytes::{read_u16_be, read_u32_le, read_u64_be, read_u64_le, u32_to_be_bytes, u64_to_le_bytes};
use rrub::display::PixelFormat as VesaFormat;
use rrub::error::RrubError;
use rrub::firmware::filesystem::{VolumeId32, VolumeId64};
use rrub::firmware::framebuffer::{pixel_bytes, pixel_offset, plot_pixel, FrameBuffer, GraphicalDisplay, PixelFormat};
use rrub::firmware::input::{InputBackend, UefiInput};
use rrub::fs::{FilesystemError, Seek, SeekFrom};
use rrub::mem::jump::Relocator;
use rrub::mem::{MemAttr, MemoryBackend, MemoryRegion, PageAllocator};
use rrub::serial::{GenericSerial, SerialBackend, SerialControlBits, SerialMode, SerialParity, SerialStopBits};
use rrub::usb::hid::{HidKeyboardReport, ToChar};

#[test]
fn volume_ids() {
    assert_eq!(VolumeId32::nil().0, [0; 4]);
    assert_eq!(VolumeId32::max().0, [0xFF; 4]);
    assert_eq!(VolumeId32::new([1, 2, 3, 4]).0, [1, 2, 3, 4]);
    assert_eq!(VolumeId32::from_u32_le(0x1234_5678).0, [0x78, 0x56, 0x34, 0x12]);
    assert_eq!(VolumeId32::from_u32_be(0x1234_5678).0, [0x12, 0x34, 0x56, 0x78]);
    assert_eq!(VolumeId64::nil().0, [0; 8]);
    assert_eq!(VolumeId64::max().0, [0xFF; 8]);
    assert_eq!(VolumeId64::new([8, 7, 6, 5, 4, 3, 2, 1]).0, [8, 7, 6, 5, 4, 3, 2, 1]);
    assert_eq!(VolumeId64::from_u64_le(0x0102_0304_0506_0708).0, [8, 7, 6, 5, 4, 3, 2, 1]);
    assert_eq!(VolumeId64::from_u64_be(0x0102_0304_0506_0708).0, [1, 2, 3, 4, 5, 6, 7, 8]);
    assert!(VolumeId32::nil() < VolumeId32::max());
}

#[test]
fn byte_order_helpers() {
    let b = [1u8, 2, 3, 4, 5, 6, 7, 8, 9];
    assert_eq!(read_u16_be(&b, 1), 0x0203);
    assert_eq!(read_u32_le(&b, 0), 0x0403_0201);
    assert_eq!(read_u64_le(&b, 1), 0x0908_0706_0504_0302);
    assert_eq!(read_u64_be(&b, 0), 0x0102_0304_0506_0708);
    assert_eq!(u32_to_be_bytes(0xAABB_CCDD), [0xAA, 0xBB, 0xCC, 0xDD]);
    assert_eq!(u64_to_le_bytes(u64::MAX - 1), [0xFE, 0xFF, 0xFF, 0xFF, 0xFF, 0xFF, 0xFF, 0xFF]);
}

struct Letters;

impl ToChar for Letters {
    fn from_keycode(code: u8) -> Option<Self> {
        if (4..=29).contains(&code) { Some(Letters) } else { None }
    }

    fn char(&self, shift: bool) -> Option<char> {
        Some(if shift { 'A' } else { 'a' })
    }
}

#[test]
fn keyboard_reports() {
    let r = HidKeyboardReport::new([0x20, 0, 4, 0, 30, 5, 0, 0]);
    assert!(r.is_shift());
    assert!(!r.is_ctrl());
    assert!(!r.is_alt());
    assert!(!r.is_super());
    assert_eq!(r.keycodes, [4, 0, 30, 5, 0, 0]);
    assert_eq!(r.get::<Letters>(), [Some('A'), None, None, Some('A'), None, None]);
    let r = HidKeyboardReport::new([0x11, 7, 4, 0, 0, 0, 0, 0x1D]);
    assert!(r.is_ctrl());
    assert!(!r.is_shift());
    assert_eq!(r.reserved, 7);
    assert_eq!(r.get::<Letters>(), [Some('a'), None, None, None, None, Some('a')]);
    let picked = r.select_keys([Some('x'), Some('y'), None, Some('z'), Some('w'), Some('v')]);
    assert_eq!(picked, [Some('x'), None, None, None, None, Some('v')]);
    assert!(HidKeyboardReport::new([0x44, 0, 0, 0, 0, 0, 0, 0]).is_alt());
    assert!(HidKeyboardReport::new([0x80, 0, 0, 0, 0, 0, 0, 0]).is_super());
}

#[test]
fn serial_codes_and_modes() {
    for c in 0..8u32 {
        assert_eq!(SerialParity::from_code(c).code(), c);
        assert_eq!(SerialStopBits::from_code(c).code(), c);
    }
    assert_eq!(SerialParity::from_code(1), SerialParity::NoParity);
    assert_eq!(SerialParity::from_code(9), SerialParity::Unknown(9));
    assert_eq!(SerialStopBits::from_code(2), SerialStopBits::OneFive);
    assert_eq!(SerialParity::default(), SerialParity::Default);
    let m = SerialMode::baud_rate_only(115200);
    assert_eq!(m.baud_rate, 115200);
    assert_eq!(m.timeout, 0);
    assert_eq!(m.parity, SerialParity::Default);
    assert_eq!(SerialMode::parity_only(SerialParity::Even).parity, SerialParity::Even);
    assert_eq!(SerialMode::stop_bits_only(SerialStopBits::Two).stop_bits, SerialStopBits::Two);
    assert_eq!(SerialMode::timeout_only(5).timeout, 5);
    assert_eq!(SerialMode::data_bits_only(8).data_bits, 8);
    assert_eq!(SerialMode::receive_fifo_depth_only(16).receive_fifo_depth, 16);
    assert!(SerialControlBits::from_bits_retain(0x30).contains(SerialControlBits::CLEAR_TO_SEND));
}

struct Loopback {
    sent: Vec<u8>,
}

impl SerialBackend for Loopback {
    fn control_bits(&self) -> Result<SerialControlBits, RrubError> { Ok(SerialControlBits::default()) }
    fn timeout(&self) -> u32 { 0 }
    fn set_timeout(&mut self, _t: u32) -> Result<(), RrubError> { Ok(()) }
    fn baud_rate(&self) -> u64 { 0 }
    fn set_baud_rate(&mut self, _b: u64) -> Result<(), RrubError> { Ok(()) }
    fn receive_fifo_depth(&self) -> u32 { 0 }
    fn set_receive_fifo_depth(&mut self, _d: u32) -> Result<(), RrubError> { Ok(()) }
    fn data_bits(&self) -> u32 { 8 }
    fn set_data_bits(&mut self, _d: u32) -> Result<(), RrubError> { Ok(()) }
    fn parity(&self) -> SerialParity { SerialParity::NoParity }
    fn set_parity(&mut self, _p: SerialParity) -> Result<(), RrubError> { Ok(()) }
    fn stop_bits(&self) -> SerialStopBits { SerialStopBits::One }
    fn set_stop_bits(&mut self, _s: SerialStopBits) -> Result<(), RrubError> { Ok(()) }
    fn read(&mut self, _data: &mut [u8]) -> Result<(), usize> { Err(0) }
    fn write(&mut self, data: &[u8]) -> Result<(), usize> {
        self.sent.extend_from_slice(data);
        Ok(())
    }
}

#[test]
fn serial_text_output() {
    let mut s = GenericSerial::new(Loopback { sent: Vec::new() });
    assert_eq!(s.write_str("boot"), Ok(()));
}

#[test]
fn pixel_formats() {
    assert_eq!(VesaFormat::Rgb8888.bits_per_pixel(), 32);
    assert_eq!(VesaFormat::Rgb555.bits_per_pixel(), 15);
    assert_eq!(VesaFormat::Rgb555.bytes_per_pixel(), 2);
    assert_eq!(VesaFormat::Rgb888.bytes_per_pixel(), 3);
    assert_eq!(VesaFormat::Unknown.bytes_per_pixel(), 0);
    assert_eq!(pixel_bytes(PixelFormat::Rgb, 1, 2, 3), Ok([1, 2, 3, 0]));
    assert_eq!(pixel_bytes(PixelFormat::Bgr, 1, 2, 3), Ok([3, 2, 1, 0]));
    assert_eq!(pixel_bytes(PixelFormat::NotSupported, 1, 2, 3), Err(RrubError::UnsupportedColourFormat));
}

#[test]
fn pixel_placement() {
    assert_eq!(pixel_offset(-1, 0, 10, 16), Ok(None));
    assert_eq!(pixel_offset(0, -5, 10, 16), Ok(None));
    assert_eq!(pixel_offset(10, 0, 10, 16), Ok(None));
    assert_eq!(pixel_offset(3, 2, 10, 16), Ok(Some((2 * 16 + 3) * 4)));
    assert_eq!(pixel_offset(0, i32::MAX, 10, usize::MAX / 2), Err(RrubError::Overflow));
    let mut buf = vec![0u8; 4 * 16 * 2];
    plot_pixel(&mut buf, 10, 16, PixelFormat::Bgr, 1, 1, (10, 20, 30)).unwrap();
    assert_eq!(&buf[(16 + 1) * 4..(16 + 1) * 4 + 4], &[30, 20, 10, 0]);
    assert_eq!(plot_pixel(&mut buf, 10, 16, PixelFormat::Rgb, 0, 2, (1, 1, 1)), Err(RrubError::Bounds));
    assert_eq!(plot_pixel(&mut buf, 10, 16, PixelFormat::NotSupported, 0, 0, (1, 1, 1)), Err(RrubError::UnsupportedColourFormat));
    assert_eq!(plot_pixel(&mut buf, 10, 16, PixelFormat::Rgb, 11, 0, (1, 1, 1)), Ok(()));
}

struct Screen {
    buffer: Vec<u8>,
    flushed: usize,
}

impl FrameBuffer for Screen {
    fn init_fb_backend(width: usize, height: usize) -> Result<Self, RrubError> {
        Ok(Screen { buffer: vec![0; width * height * 4], flushed: 0 })
    }
    fn width(&self) -> usize { 4 }
    fn height(&self) -> usize { 2 }
    fn stride(&self) -> usize { 4 }
    fn pixel_format(&self) -> PixelFormat { PixelFormat::Rgb }
    fn buffer(&mut self) -> &mut Vec<u8> { &mut self.buffer }
    fn flush(&mut self) { self.flushed += 1; }
}

#[test]
fn display_draws_into_its_back_buffer() {
    let mut d = GraphicalDisplay::new(Screen::init_fb_backend(4, 2).unwrap());
    assert_eq!(d.size(), (4, 2));
    d.draw_pixel(3, 1, (9, 8, 7)).unwrap();
    assert_eq!(d.draw_pixel(0, 2, (1, 1, 1)), Err(RrubError::Bounds));
    d.flush();
}

struct Pages;

impl MemoryBackend for Pages {
    fn allocate(&mut self, addr: Option<usize>, _n: usize) -> Result<usize, RrubError> { Ok(addr.unwrap_or(0x5000)) }
    fn deallocate(&mut self, _a: usize, _n: usize) -> Result<(), RrubError> { Ok(()) }
    fn get_mem_attrs(&self, _a: usize, _n: usize) -> Result<MemAttr, RrubError> { Ok(MemAttr::all()) }
    fn update_mem_attrs(&mut self, _a: usize, _n: usize, _s: MemAttr, _c: MemAttr) -> Result<(), RrubError> { Ok(()) }
    fn final_memory_map(&mut self) -> Result<Vec<(u64, u64, u32)>, RrubError> { Ok(Vec::new()) }
}

#[test]
fn trampoline_is_copied_and_registers_staged() {
    let mut reloc = Relocator::new(vec![0xFA, 0xF4, 0xEB, 0xFE]);
    assert_eq!(reloc.size(), 4);
    let mut region = MemoryRegion::new(&mut PageAllocator::new(Pages), None, 16, MemAttr::all()).unwrap();
    reloc.copy_to(&mut region, 10).unwrap();
    assert_eq!(region.read(10, 4).unwrap(), vec![0xFA, 0xF4, 0xEB, 0xFE]);
    assert_eq!(reloc.copy_to(&mut region, 13), Err(RrubError::Bounds));
    reloc.set_registers(1, 2, 3, 4, 0xA000_0390, 0xB000_0000);
    let regs = reloc.registers();
    assert_eq!((regs.rax, regs.rbx, regs.rcx, regs.rdx, regs.rip, regs.rsi), (1, 2, 3, 4, 0xA000_0390, 0xB000_0000));
    let area = reloc.staging_area();
    assert_eq!(area.len(), 48);
    assert_eq!(&area[0..8], &1u64.to_le_bytes());
    assert_eq!(&area[32..40], &0xB000_0000u64.to_le_bytes());
    assert_eq!(&area[40..48], &0xA000_0390u64.to_le_bytes());
}

#[test]
fn firmware_input_reports_no_key() {
    let input = UefiInput::init_input_backend().ok().unwrap();
    assert!(input.read_key().is_none());
}

struct Cursor {
    pos: u64,
}

impl Seek for Cursor {
    fn seek(&mut self, pos: SeekFrom) -> Result<u64, FilesystemError> {
        match pos {
            SeekFrom::Start(p) => self.pos = p,
            SeekFrom::Current(d) => self.pos = (self.pos as i64 + d) as u64,
            SeekFrom::End(_) => return Err(FilesystemError::Unsupported),
        }
        Ok(self.pos)
    }
}

#[test]
fn relative_seek_moves_from_current_position() {
    let mut c = Cursor { pos: 10 };
    assert!(c.seek_relative(-4).is_ok());
    assert_eq!(c.pos, 6);
    assert!(c.seek(SeekFrom::End(0)).is_err());
}
