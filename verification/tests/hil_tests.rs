use kernel::common::ring_buffer::RingBuffer;
use kernel::debug::{DebugWriter, DebugWriterWrapper, FULL_MSG};
use kernel::hil::ble_advertising::RadioChannel;
use kernel::hil::gpio::{self, Configuration, FloatingState, InterruptEdge};
use kernel::hil::i2c;
use kernel::hil::led::{Led, LedHigh, LedLow};
use kernel::hil::time::{Freq16KHz, Freq16MHz, Freq1KHz, Freq32KHz, Frequency, Time, Timer, TimerClient};
use kernel::hil::uart::{Transmit, TransmitClient};
use kernel::returncode::ReturnCode;
use std::cell::{Cell, RefCell};

#[test]
fn radio_channel_indices() {
    assert_eq!(RadioChannel::DataChannel0.get_channel_index(), 0);
    assert_eq!(RadioChannel::DataChannel10.get_channel_index(), 10);
    assert_eq!(RadioChannel::DataChannel36.get_channel_index(), 36);
    assert_eq!(RadioChannel::AdvertisingChannel37.get_channel_index(), 37);
    assert_eq!(RadioChannel::AdvertisingChannel38.get_channel_index(), 38);
    assert_eq!(RadioChannel::AdvertisingChannel39.get_channel_index(), 39);
}

#[test]
fn radio_channel_frequencies() {
    assert_eq!(RadioChannel::DataChannel0.get_channel_frequency(), 4);
    assert_eq!(RadioChannel::DataChannel10.get_channel_frequency(), 24);
    assert_eq!(RadioChannel::DataChannel11.get_channel_frequency(), 28);
    assert_eq!(RadioChannel::DataChannel36.get_channel_frequency(), 78);
    assert_eq!(RadioChannel::AdvertisingChannel37.get_channel_frequency(), 2);
    assert_eq!(RadioChannel::AdvertisingChannel38.get_channel_frequency(), 26);
    assert_eq!(RadioChannel::AdvertisingChannel39.get_channel_frequency(), 80);
}

#[test]
fn timer_frequencies() {
    assert_eq!(Freq16MHz::frequency(), 16_000_000);
    assert_eq!(Freq32KHz::frequency(), 32768);
    assert_eq!(Freq16KHz::frequency(), 16000);
    assert_eq!(Freq1KHz::frequency(), 1000);
}

#[test]
fn i2c_error_descriptions() {
    assert_eq!(i2c::Error::AddressNak.description(), "I2C Address Not Acknowledged");
    assert_eq!(i2c::Error::DataNak.description(), "I2C Data Not Acknowledged");
    assert_eq!(i2c::Error::ArbitrationLost.description(), "I2C Bus Arbitration Lost");
    assert_eq!(i2c::Error::Overrun.description(), "I2C receive overrun");
    assert_eq!(i2c::Error::CommandComplete.description(), "I2C Command Completed");
}

struct TestPin {
    level: Cell<bool>,
    output: Cell<bool>,
    edge: RefCell<Option<InterruptEdge>>,
}

impl TestPin {
    fn new() -> TestPin {
        TestPin { level: Cell::new(false), output: Cell::new(false), edge: RefCell::new(None) }
    }
}

impl gpio::Input for TestPin {
    fn read(&self) -> bool {
        self.level.get()
    }
}

impl gpio::Output for TestPin {
    fn set(&self) {
        self.level.set(true);
    }
    fn clear(&self) {
        self.level.set(false);
    }
    fn toggle(&self) -> bool {
        self.level.set(!self.level.get());
        self.level.get()
    }
}

impl gpio::Configure for TestPin {
    fn configuration(&self) -> Configuration {
        if self.output.get() {
            Configuration::Output
        } else {
            Configuration::Input
        }
    }
    fn make_output(&self) -> Configuration {
        self.output.set(true);
        Configuration::Output
    }
    fn disable_output(&self) -> Configuration {
        self.output.set(false);
        Configuration::Input
    }
    fn make_input(&self) -> Configuration {
        Configuration::Input
    }
    fn disable_input(&self) -> Configuration {
        Configuration::Output
    }
    fn deactivate_to_low_power(&self) {}
    fn set_floating_state(&self, _state: FloatingState) {}
    fn floating_state(&self) -> FloatingState {
        FloatingState::PullNone
    }
}

impl gpio::Pin for TestPin {}

impl gpio::Interrupt for TestPin {
    fn set_client(&self, _client: &'static dyn gpio::Client) {}
    fn enable_interrupts(&self, mode: InterruptEdge) {
        *self.edge.borrow_mut() = Some(mode);
    }
    fn disable_interrupts(&self) {
        *self.edge.borrow_mut() = None;
    }
    fn is_pending(&self) -> bool {
        false
    }
}

impl gpio::InterruptPin for TestPin {}

#[test]
fn led_high_and_low_drive_the_pin() {
    let mut pin = TestPin::new();
    {
        let mut led = LedHigh::new(&mut pin);
        led.init();
        led.on();
        assert!(led.read());
        led.off();
        assert!(!led.read());
        led.toggle();
        assert!(led.read());
    }
    assert!(pin.level.get());
    assert!(pin.output.get());
    {
        let mut led = LedLow::new(&mut pin);
        led.on();
        assert!(led.read());
        assert!(!led_pin_level(&led));
        led.off();
        assert!(!led.read());
    }
    assert!(pin.level.get());
}

fn led_pin_level(led: &LedLow<TestPin>) -> bool {
    gpio::Input::read(&*led.pin)
}

struct ValueClient {
    got: Cell<Option<u32>>,
}

impl gpio::ClientWithValue for ValueClient {
    fn fired(&self, value: u32) {
        self.got.set(Some(value));
    }
}

#[test]
fn interrupt_value_wrapper_passes_its_value() {
    let pin = TestPin::new();
    let client: &'static ValueClient = Box::leak(Box::new(ValueClient { got: Cell::new(None) }));
    let mut w = gpio::InterruptValueWrapper::new(&pin);
    assert_eq!(w.value(), 0);
    w.set_value(42);
    gpio::Client::fired(&w);
    assert_eq!(client.got.get(), None);
    w.set_client(client);
    gpio::Client::fired(&w);
    assert_eq!(client.got.get(), Some(42));
    gpio::Output::set(&w);
    assert!(gpio::Input::read(&w));
    gpio::Configure::make_output(&w);
    assert!(gpio::Configure::is_output(&w));
    assert!(!gpio::Configure::is_input(&w));
    assert_eq!(w.enable_interrupts(InterruptEdge::RisingEdge), ReturnCode::SUCCESS);
    assert!(matches!(*pin.edge.borrow(), Some(InterruptEdge::RisingEdge)));
    w.disable_interrupts();
    assert!(pin.edge.borrow().is_none());
    assert!(!w.is_pending());
    gpio::Output::clear(&w);
    assert!(!gpio::Input::read(&w));
}

#[test]
fn interrupt_value_wrapper_becomes_its_pins_client() {
    let pin: &'static TestPin = Box::leak(Box::new(TestPin::new()));
    let w: &'static gpio::InterruptValueWrapper<'static, TestPin> =
        Box::leak(Box::new(gpio::InterruptValueWrapper::new(pin)));
    let r = w.finalize();
    assert!(std::ptr::eq(r, w));
}

struct TestUart {
    sent: RefCell<Vec<u8>>,
}

impl<'a> Transmit<'a> for TestUart {
    fn set_transmit_client(&self, _client: &'a dyn TransmitClient) {}
    fn transmit_buffer(&self, tx_buffer: &'static mut [u8], tx_len: usize) -> (ReturnCode, Option<&'static mut [u8]>) {
        self.sent.borrow_mut().extend_from_slice(&tx_buffer[..tx_len]);
        (ReturnCode::SUCCESS, Some(tx_buffer))
    }
    fn transmit_word(&self, _word: u32) -> ReturnCode {
        ReturnCode::FAIL
    }
    fn transmit_abort(&self) -> ReturnCode {
        ReturnCode::SUCCESS
    }
}

fn out_buffer(n: usize) -> &'static mut [u8] {
    Box::leak(vec![0u8; n].into_boxed_slice())
}

#[test]
fn debug_writer_sends_what_is_written() {
    let uart = TestUart { sent: RefCell::new(Vec::new()) };
    let dw = DebugWriter::new(&uart, out_buffer(4), RingBuffer::new(vec![0u8; 64]));
    let mut w = DebugWriterWrapper::new(dw);
    w.write_str("hello!");
    w.publish_str();
    assert_eq!(uart.sent.borrow().as_slice(), b"hell");
    w.publish_str();
    assert_eq!(uart.sent.borrow().as_slice(), b"hello!");
    w.increment_count();
    w.increment_count();
    assert_eq!(w.get_count(), 2);
}

#[test]
fn debug_writer_marks_a_full_buffer() {
    let uart = TestUart { sent: RefCell::new(Vec::new()) };
    let dw = DebugWriter::new(&uart, out_buffer(64), RingBuffer::new(vec![0u8; 40]));
    let mut w = DebugWriterWrapper::new(dw);
    w.write_str("0123456789abcdefghijklmnopqrstuvwxyz");
    let mut ring = w.extract().unwrap();
    let mut got = Vec::new();
    while let Some(b) = kernel::common::queue::Queue::dequeue(&mut ring) {
        got.push(b);
    }
    let mut expected = b"0123456789ab".to_vec();
    expected.extend_from_slice(FULL_MSG.as_bytes());
    assert_eq!(got, expected);
    assert!(w.extract().is_none());
}

#[test]
fn debug_writer_with_little_room_keeps_part_of_the_message() {
    let uart = TestUart { sent: RefCell::new(Vec::new()) };
    let dw = DebugWriter::new(&uart, out_buffer(64), RingBuffer::new(vec![0u8; 10]));
    let mut w = DebugWriterWrapper::new(dw);
    w.write_str("abc");
    w.publish_str();
    assert_eq!(uart.sent.borrow().as_slice(), &FULL_MSG.as_bytes()[..9]);
}

#[test]
fn debug_writer_loses_its_buffer_when_publishing_nothing() {
    let uart = TestUart { sent: RefCell::new(Vec::new()) };
    let dw = DebugWriter::new(&uart, out_buffer(8), RingBuffer::new(vec![0u8; 16]));
    let mut w = DebugWriterWrapper::new(dw);
    w.publish_str();
    w.write_str("late");
    w.publish_str();
    assert!(uart.sent.borrow().is_empty());
}

#[test]
fn debug_writer_sends_the_rest_when_the_uart_is_done() {
    let uart = TestUart { sent: RefCell::new(Vec::new()) };
    let mut dw = DebugWriter::new(&uart, out_buffer(2), RingBuffer::new(vec![0u8; 64]));
    let spare = out_buffer(2);
    dw.publish_str();
    dw.transmitted_buffer(spare, 0, ReturnCode::SUCCESS);
    assert!(uart.sent.borrow().is_empty());
    let mut w = DebugWriterWrapper::new(dw);
    w.write_str("xyz");
    w.publish_str();
    assert_eq!(uart.sent.borrow().as_slice(), b"xy");
}

#[test]
fn pin_configuration_defaults() {
    let pin = TestPin::new();
    assert!(gpio::Configure::is_input(&pin));
    assert!(!gpio::Configure::is_output(&pin));
    gpio::Configure::make_output(&pin);
    assert!(!gpio::Configure::is_input(&pin));
    assert!(gpio::Configure::is_output(&pin));
}

struct TestTimer {
    interval: Cell<Option<u32>>,
    remaining: Cell<Option<u32>>,
}

impl Time for TestTimer {
    type Frequency = Freq1KHz;
    fn now(&self) -> u32 {
        0
    }
    fn max_tics(&self) -> u32 {
        u32::MAX
    }
}

impl<'a> Timer<'a> for TestTimer {
    fn set_client(&'a self, _client: &'a dyn TimerClient) {}
    fn oneshot(&self, interval: u32) {
        self.interval.set(None);
        self.remaining.set(Some(interval));
    }
    fn repeat(&self, interval: u32) {
        self.interval.set(Some(interval));
        self.remaining.set(Some(interval));
    }
    fn interval(&self) -> Option<u32> {
        self.interval.get()
    }
    fn time_remaining(&self) -> Option<u32> {
        self.remaining.get()
    }
    fn cancel(&self) {
        self.remaining.set(None);
    }
}

#[test]
fn timer_defaults_follow_interval_and_remaining_time() {
    let t = TestTimer { interval: Cell::new(None), remaining: Cell::new(None) };
    assert!(t.is_oneshot());
    assert!(!t.is_repeating());
    assert!(!t.is_enabled());
    t.repeat(10);
    assert!(!t.is_oneshot());
    assert!(t.is_repeating());
    assert!(t.is_enabled());
    t.cancel();
    assert!(!t.is_enabled());
}
