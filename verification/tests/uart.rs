use std::sync::atomic::{AtomicUsize, Ordering};
use std::sync::Arc;
use std::task::{Wake, Waker};

use hpm_hal::dma::regs::{AddrCtrl, DmaMux, DmaRegs, Mode, MuxCfg};
use hpm_hal::dma::v1::{Poll, TransferState};
use hpm_hal::dma::{AnyChannel, ChannelAndRequest};
use hpm_hal::gpio::AnyPin;
use hpm_hal::sysctl::{ClockConfig, ClockPeripheral, PeripheralClock, SysctlRegs};
use hpm_hal::time::Hertz;
use hpm_hal::uart::regs::{Fcr, Fcrr, Ier, InterruptLine, Lcr, Lsr, UartRegs};
use hpm_hal::uart::{
    blocking_flush, blocking_write_step, check_line_error, check_read_length, cleanup_read,
    complete_read,
    configure, drop_tx_rx, on_interrupt, reconfigure, set_dma_requests, Config, ConfigError,
    DataBits, Error, ErrorKind, Features, FifoTriggerLevel, First, Info, Instance,
    InterruptHandler,
    NbError, Parity, ReadCompletionEvent, RxFifoTrigger, State, StopBits, TxFifoTrigger, Uart,
    UartRx, UartTx, WaitStep, HPM_UART_DRV_RETRY_COUNT, MAX_DMA_BUFFER,
};

const RBR: u32 = 0xF004_0020;
const THR: u32 = 0xF004_0020;
const BUF: u32 = 0x0108_0000;

/// A waker that counts how often it is woken.
struct Counter(AtomicUsize);

impl Wake for Counter {
    fn wake(self: Arc<Self>) {
        self.0.fetch_add(1, Ordering::SeqCst);
    }

    fn wake_by_ref(self: &Arc<Self>) {
        self.0.fetch_add(1, Ordering::SeqCst);
    }
}

fn counting_waker() -> (Arc<Counter>, Waker) {
    let counter = Arc::new(Counter(AtomicUsize::new(0)));
    (counter.clone(), Waker::from(counter))
}

/// A UART with idle detection, fine thresholds and the idle flag in its own
/// register.
fn fine() -> Features {
    Features {
        rx_idle_detect: true,
        fine_fifo_thrld: true,
        rx_en: true,
        e00018_fix: true,
        nine_bit_mode: true,
    }
}

/// A UART with none of the extras.
fn legacy() -> Features {
    Features {
        rx_idle_detect: false,
        fine_fifo_thrld: false,
        rx_en: false,
        e00018_fix: false,
        nine_bit_mode: false,
    }
}

/// A UART that reports an idle line in its line status.
fn idle_in_status() -> Features {
    Features {
        rx_idle_detect: true,
        fine_fifo_thrld: false,
        rx_en: false,
        e00018_fix: false,
        nine_bit_mode: true,
    }
}

fn info(features: Features) -> Info {
    Info { features, resource: 256 + 70, clock: 20 }
}

const RX_PIN: AnyPin = AnyPin { pin_pad: 1 };
const TX_PIN: AnyPin = AnyPin { pin_pad: 2 };
const RTS_PIN: AnyPin = AnyPin { pin_pad: 3 };
const CTS_PIN: AnyPin = AnyPin { pin_pad: 4 };
const DE_PIN: AnyPin = AnyPin { pin_pad: 5 };

fn dma_channel(id: u8, request: u8) -> ChannelAndRequest {
    ChannelAndRequest { channel: AnyChannel::new(id, false).expect("a channel"), request }
}

fn lsr_with(set: fn(&mut Lsr)) -> Lsr {
    let mut lsr = Lsr::zero();
    set(&mut lsr);
    lsr
}

fn all_features() -> Vec<Features> {
    let mut out = Vec::new();
    for bits in 0u8..32 {
        out.push(Features {
            rx_idle_detect: bits & 1 != 0,
            fine_fifo_thrld: bits & 2 != 0,
            rx_en: bits & 4 != 0,
            e00018_fix: bits & 8 != 0,
            nine_bit_mode: bits & 16 != 0,
        });
    }
    out
}

fn dma_requests(r: &UartRegs, features: Features) -> bool {
    if features.fine_fifo_thrld {
        r.fcrr.dmae
    } else {
        r.fcr.dmae
    }
}

struct Bench {
    r: UartRegs,
    irq: InterruptLine,
    s: State,
    sysctl: SysctlRegs,
    dma: DmaRegs,
    mux: DmaMux,
}

fn bench() -> Bench {
    Bench {
        r: UartRegs::new(),
        irq: InterruptLine { enabled: false, pending: true },
        s: State::new(),
        sysctl: SysctlRegs::new(false),
        dma: DmaRegs::new(),
        mux: DmaMux::new(),
    }
}

fn new_rx(b: &mut Bench, features: Features, config: Config) -> UartRx {
    UartRx::new(
        &mut b.r,
        &mut b.irq,
        &mut b.s,
        &mut b.sysctl,
        info(features),
        Hertz(24_000_000),
        RX_PIN,
        dma_channel(5, 11),
        config,
    )
    .expect("a valid configuration")
}

#[test]
fn config_default() {
    let c = Config::default();
    assert_eq!(c.baudrate, 115200);
    assert_eq!(c.data_bits, DataBits::DataBits8);
    assert_eq!(c.stop_bits, StopBits::STOP1);
    assert_eq!(c.parity, Parity::ParityNone);
    assert_eq!(c.fifo_level, Some((TxFifoTrigger::NOT_FULL, RxFifoTrigger::NOT_EMPTY)));
    assert_eq!(c.fine_fifo_level, Some((FifoTriggerLevel::Byte16, FifoTriggerLevel::Byte1)));
    assert!(!c.detect_previous_overrun);
}

#[test]
fn field_codes() {
    assert_eq!(DataBits::DataBits5.bits(), 0);
    assert_eq!(DataBits::DataBits6.bits(), 1);
    assert_eq!(DataBits::DataBits7.bits(), 2);
    assert_eq!(DataBits::DataBits8.bits(), 3);
    let levels = [
        FifoTriggerLevel::Byte1,
        FifoTriggerLevel::Byte2,
        FifoTriggerLevel::Byte3,
        FifoTriggerLevel::Byte4,
        FifoTriggerLevel::Byte5,
        FifoTriggerLevel::Byte6,
        FifoTriggerLevel::Byte7,
        FifoTriggerLevel::Byte8,
        FifoTriggerLevel::Byte9,
        FifoTriggerLevel::Byte10,
        FifoTriggerLevel::Byte11,
        FifoTriggerLevel::Byte12,
        FifoTriggerLevel::Byte13,
        FifoTriggerLevel::Byte14,
        FifoTriggerLevel::Byte15,
        FifoTriggerLevel::Byte16,
    ];
    for (i, level) in levels.iter().enumerate() {
        assert_eq!(level.bits() as usize, i);
    }
}

#[test]
fn error_kinds() {
    assert_eq!(Error::Framing.kind(), ErrorKind::FrameFormat);
    assert_eq!(Error::Overrun.kind(), ErrorKind::Overrun);
    assert_eq!(Error::Parity.kind(), ErrorKind::Parity);
    assert_eq!(Error::BufferTooLong.kind(), ErrorKind::Other);
    assert_eq!(Error::Timeout.kind(), ErrorKind::Other);
    assert_eq!(Error::FIFO.kind(), ErrorKind::Overrun);
    assert_eq!(Error::LineBreak.kind(), ErrorKind::Other);
}

#[test]
fn configure_needs_a_direction() {
    let mut r = UartRegs::new();
    r.ier.elsi = true;
    let before = r;
    let res = configure(&mut r, &info(fine()), Hertz(24_000_000), &Config::default(), false, false);
    assert_eq!(res, Err(ConfigError::RxOrTxNotEnabled));
    assert_eq!(r, before);
    // the direction is looked at before the baud rate
    let mut c = Config::default();
    c.baudrate = 1;
    let res = configure(&mut r, &info(fine()), Hertz(24_000_000), &c, false, false);
    assert_eq!(res, Err(ConfigError::RxOrTxNotEnabled));
}

#[test]
fn configure_refuses_a_rate_without_setting_and_writes_nothing() {
    let mut r = UartRegs::new();
    r.ier.elsi = true;
    r.lcr.pen = true;
    let before = r;
    let mut c = Config::default();
    // too high for the clock
    c.baudrate = 4_000_000;
    let res = configure(&mut r, &info(legacy()), Hertz(24_000_000), &c, true, true);
    assert_eq!(res, Err(ConfigError::BaudrateTooHigh));
    assert_eq!(r, before);
    // below the floor
    c.baudrate = 100;
    let res = configure(&mut r, &info(legacy()), Hertz(24_000_000), &c, true, false);
    assert_eq!(res, Err(ConfigError::BaudrateTooHigh));
    assert_eq!(r, before);
    // in range, but no factor within tolerance
    c.baudrate = 1_000_000;
    let res = configure(&mut r, &info(legacy()), Hertz(23_000_000), &c, false, true);
    assert_eq!(res, Err(ConfigError::BaudrateTooHigh));
    assert_eq!(r, before);
}

#[test]
fn configure_with_fine_thresholds() {
    let mut r = UartRegs::new();
    r.ier.elsi = true;
    r.ier.erbi = true;
    r.lcr.bc = true;
    r.idle_cfg.tx_idle_thr = 9;
    let res = configure(&mut r, &info(fine()), Hertz(24_000_000), &Config::default(), true, true);
    assert_eq!(res, Ok(()));
    assert_eq!(r.ier, Ier::none());
    // 24 MHz / 115200: divider 26 at a factor of 8
    assert_eq!(r.oscr, 8);
    assert_eq!(r.dll, 26);
    assert_eq!(r.dlm, 0);
    assert_eq!(
        r.lcr,
        Lcr { wls: 3, stb: false, pen: false, eps: false, sps: false, bc: false, dlab: false }
    );
    assert!(r.rx_fifo_reset);
    assert!(r.tx_fifo_reset);
    let mut fcrr = Fcrr::zero();
    fcrr.fifoe = true;
    fcrr.fifot4en = true;
    fcrr.tfifot4 = 15;
    fcrr.rfifot4 = 0;
    assert_eq!(r.fcrr, fcrr);
    // the coarse register is left alone
    assert_eq!(r.fcr, Fcr::zero());
    assert_eq!(r.gpr, Fcr::zero());
    // the receiver is enabled with an idle threshold of ten bit times
    assert!(r.idle_cfg.rxen);
    assert_eq!(r.idle_cfg.rx_idle_thr, 10);
    assert_eq!(r.idle_cfg.tx_idle_thr, 9);
    assert!(!r.idle_cfg.rx_idle_en);
}

#[test]
fn configure_with_coarse_thresholds() {
    let mut r = UartRegs::new();
    let mut c = Config::default();
    c.baudrate = 200;
    c.fifo_level = Some((TxFifoTrigger::LT_HALF, RxFifoTrigger::GT_THREE_QUARTER));
    let res = configure(&mut r, &info(legacy()), Hertz(24_000_000), &c, true, true);
    assert_eq!(res, Ok(()));
    // 24 MHz / 200 = 120000: divider 15000 = 0x3A98 at a factor of 8
    assert_eq!(r.oscr, 8);
    assert_eq!(r.dll, 0x98);
    assert_eq!(r.dlm, 0x3A);
    let fcr = Fcr {
        fifoe: true,
        dmae: false,
        tfifot: TxFifoTrigger::LT_HALF,
        rfifot: RxFifoTrigger::GT_THREE_QUARTER,
    };
    assert_eq!(r.fcr, fcr);
    // the scratch register shadows the FIFO control register
    assert_eq!(r.gpr, fcr);
    assert_eq!(r.fcrr, Fcrr::zero());
    assert!(r.rx_fifo_reset && r.tx_fifo_reset);
    // no receiver enable bit on this UART
    assert!(!r.idle_cfg.rxen);
    assert_eq!(r.idle_cfg.rx_idle_thr, 0);
}

#[test]
fn configure_without_fifos() {
    let mut c = Config::default();
    c.fifo_level = None;
    c.fine_fifo_level = None;
    let mut r = UartRegs::new();
    r.fcr.fifoe = true;
    r.gpr.fifoe = true;
    assert_eq!(configure(&mut r, &info(legacy()), Hertz(24_000_000), &c, true, true), Ok(()));
    assert_eq!(r.fcr, Fcr::zero());
    assert_eq!(r.gpr, Fcr::zero());
    assert!(r.rx_fifo_reset && r.tx_fifo_reset);
    let mut r = UartRegs::new();
    r.fcrr.fifoe = true;
    r.fcrr.dmae = true;
    assert_eq!(configure(&mut r, &info(fine()), Hertz(24_000_000), &c, true, true), Ok(()));
    assert_eq!(r.fcrr, Fcrr::zero());
    assert!(r.rx_fifo_reset && r.tx_fifo_reset);
}

#[test]
fn configure_transmit_only_leaves_the_receiver_off() {
    let mut r = UartRegs::new();
    let res = configure(&mut r, &info(fine()), Hertz(24_000_000), &Config::default(), false, true);
    assert_eq!(res, Ok(()));
    assert!(!r.idle_cfg.rxen);
    assert_eq!(r.idle_cfg.rx_idle_thr, 0);
}

#[test]
fn configure_line_control() {
    let cases = [
        (Parity::ParityNone, false, false, false),
        (Parity::ParityEven, true, false, false),
        (Parity::ParityOdd, true, true, false),
        (Parity::ParityAlways1, true, true, true),
        (Parity::ParityAlways0, true, false, true),
    ];
    for &(parity, pen, eps, sps) in &cases {
        for &(stop, stb) in
            &[(StopBits::STOP1, false), (StopBits::STOP1P5, true), (StopBits::STOP2, true)]
        {
            for &(data, wls) in &[
                (DataBits::DataBits5, 0u8),
                (DataBits::DataBits6, 1),
                (DataBits::DataBits7, 2),
                (DataBits::DataBits8, 3),
            ] {
                let mut c = Config::default();
                c.parity = parity;
                c.stop_bits = stop;
                c.data_bits = data;
                let mut r = UartRegs::new();
                r.lcr.dlab = true;
                r.lcr.bc = true;
                let res = configure(&mut r, &info(legacy()), Hertz(24_000_000), &c, true, true);
                assert_eq!(res, Ok(()));
                assert_eq!(r.lcr, Lcr { wls, stb, pen, eps, sps, bc: false, dlab: false });
            }
        }
    }
}

#[test]
fn constant_parity_differs_from_odd_and_even() {
    let mut images = Vec::new();
    for parity in [
        Parity::ParityNone,
        Parity::ParityEven,
        Parity::ParityOdd,
        Parity::ParityAlways1,
        Parity::ParityAlways0,
    ] {
        let mut c = Config::default();
        c.parity = parity;
        let mut r = UartRegs::new();
        assert_eq!(configure(&mut r, &info(fine()), Hertz(24_000_000), &c, true, true), Ok(()));
        assert!(!images.contains(&r.lcr));
        images.push(r.lcr);
    }
    assert_eq!(images.len(), 5);
}

#[test]
fn reconfigure_holds_the_interrupt_off_meanwhile() {
    let mut r = UartRegs::new();
    let mut irq = InterruptLine { enabled: true, pending: true };
    let c = Config::default();
    let res = reconfigure(&mut r, &mut irq, &info(fine()), Hertz(24_000_000), &c);
    assert_eq!(res, Ok(()));
    assert_eq!(irq, InterruptLine { enabled: true, pending: false });
    assert_eq!(r.dll, 26);
    assert!(r.idle_cfg.rxen);
    // a refused configuration leaves the interrupt off
    let mut bad = Config::default();
    bad.baudrate = 10;
    let before = r;
    let mut irq = InterruptLine { enabled: true, pending: true };
    let res = reconfigure(&mut r, &mut irq, &info(fine()), Hertz(24_000_000), &bad);
    assert_eq!(res, Err(ConfigError::BaudrateTooHigh));
    assert_eq!(irq, InterruptLine { enabled: false, pending: true });
    assert_eq!(r, before);
}

#[test]
fn dma_requests_on_either_register() {
    let mut r = UartRegs::new();
    r.fcrr.fifoe = true;
    set_dma_requests(&mut r, fine(), true);
    assert!(r.fcrr.dmae && r.fcrr.fifoe);
    assert!(!r.fcr.dmae);
    set_dma_requests(&mut r, fine(), false);
    assert!(!r.fcrr.dmae && r.fcrr.fifoe);

    let mut r = UartRegs::new();
    r.gpr = Fcr {
        fifoe: true,
        dmae: false,
        tfifot: TxFifoTrigger::LT_HALF,
        rfifot: RxFifoTrigger::GT_HALF,
    };
    set_dma_requests(&mut r, legacy(), true);
    // the rest of the register comes from the scratch register, which
    // stays as it is
    assert_eq!(
        r.fcr,
        Fcr { fifoe: true, dmae: true, tfifot: TxFifoTrigger::LT_HALF, rfifot: RxFifoTrigger::GT_HALF }
    );
    assert!(!r.gpr.dmae);
    assert!(!r.fcrr.dmae);
    set_dma_requests(&mut r, legacy(), false);
    assert!(!r.fcr.dmae && r.fcr.fifoe);
}

#[test]
fn bounded_wait_steps() {
    let empty = lsr_with(|l| l.temt = true);
    let busy = Lsr::zero();
    assert_eq!(blocking_flush(empty, 0), WaitStep::Done(Ok(())));
    assert_eq!(blocking_flush(busy, 0), WaitStep::Retry(1));
    assert_eq!(blocking_flush(busy, 4999), WaitStep::Retry(5000));
    assert_eq!(blocking_flush(busy, 5000), WaitStep::Retry(5001));
    assert_eq!(blocking_flush(empty, 5000), WaitStep::Done(Ok(())));
    // past the budget the wait is given up, whatever is seen then
    assert_eq!(blocking_flush(busy, 5001), WaitStep::Done(Err(Error::Timeout)));
    assert_eq!(blocking_flush(empty, 5001), WaitStep::Done(Err(Error::Timeout)));
    assert_eq!(blocking_flush(busy, u32::MAX), WaitStep::Done(Err(Error::Timeout)));
    // the flush looks at the transmitter, not at the holding register
    assert_eq!(blocking_flush(lsr_with(|l| l.thre = true), 3), WaitStep::Retry(4));
    assert_eq!(blocking_write_step(lsr_with(|l| l.thre = true), 3), WaitStep::Done(Ok(())));
    assert_eq!(blocking_write_step(empty, 3), WaitStep::Retry(4));
    assert_eq!(blocking_write_step(busy, 5001), WaitStep::Done(Err(Error::Timeout)));
    assert_eq!(HPM_UART_DRV_RETRY_COUNT, 5000);
}

#[test]
fn blocking_flush_times_out_after_the_budget() {
    // a transmitter that never runs empty
    let mut retry = 0;
    let mut looks = 0u32;
    let res = loop {
        looks += 1;
        match blocking_flush(Lsr::zero(), retry) {
            WaitStep::Done(res) => break res,
            WaitStep::Retry(n) => retry = n,
        }
    };
    assert_eq!(res, Err(Error::Timeout));
    assert_eq!(looks, 5002);
}

#[test]
fn line_errors_by_priority() {
    assert_eq!(check_line_error(Lsr::zero()), None);
    assert_eq!(check_line_error(lsr_with(|l| l.dr = true)), None);
    assert_eq!(check_line_error(lsr_with(|l| l.pe = true)), Some(Error::Parity));
    assert_eq!(check_line_error(lsr_with(|l| l.fe = true)), Some(Error::Framing));
    assert_eq!(check_line_error(lsr_with(|l| l.oe = true)), Some(Error::Overrun));
    assert_eq!(check_line_error(lsr_with(|l| l.errf = true)), Some(Error::FIFO));
    assert_eq!(check_line_error(lsr_with(|l| l.lbreak = true)), Some(Error::LineBreak));
    let all = lsr_with(|l| {
        l.pe = true;
        l.fe = true;
        l.oe = true;
        l.errf = true;
        l.lbreak = true;
    });
    assert_eq!(check_line_error(all), Some(Error::Parity));
    let mut some = all;
    some.pe = false;
    assert_eq!(check_line_error(some), Some(Error::Framing));
    some.fe = false;
    assert_eq!(check_line_error(some), Some(Error::Overrun));
    some.oe = false;
    assert_eq!(check_line_error(some), Some(Error::FIFO));
    some.errf = false;
    assert_eq!(check_line_error(some), Some(Error::LineBreak));
    assert!(all.has_errors());
    assert!(!Lsr::zero().has_errors());
    assert!(!lsr_with(|l| l.rxidle = true).has_errors());
}

#[test]
fn interrupt_saves_the_line_status_and_wakes_the_reader() {
    let mut b = bench();
    let rx = new_rx(&mut b, fine(), Config::default());
    let (count, waker) = counting_waker();
    assert_eq!(rx.poll_abort(&mut b.s, &waker, &b.r, false), Poll::Pending);
    let lsr = lsr_with(|l| {
        l.dr = true;
        l.thre = true;
    });
    let before = b.r;
    on_interrupt(&mut b.r, &mut b.s, fine(), lsr);
    assert_eq!(b.s.saved_lsr, lsr);
    assert_eq!(b.s.tx_rx_refcount, 1);
    assert_eq!(count.0.load(Ordering::SeqCst), 1);
    assert_eq!(b.r, before);
}

#[test]
fn interrupt_on_a_line_error_stops_the_receive_path() {
    for features in all_features() {
        let mut r = UartRegs::new();
        let mut s = State::new();
        r.ier.elsi = true;
        r.ier.erxidle = true;
        r.ier.ethei = true;
        r.idle_cfg.rx_idle_en = true;
        r.fcrr.dmae = true;
        r.fcrr.fifoe = true;
        r.gpr.fifoe = true;
        r.fcr.fifoe = true;
        r.fcr.dmae = true;
        let lsr = lsr_with(|l| l.oe = true);
        on_interrupt(&mut r, &mut s, features, lsr);
        assert_eq!(s.saved_lsr, lsr);
        assert!(!r.ier.elsi);
        assert!(r.ier.ethei);
        assert_eq!(r.ier.erxidle, !features.rx_idle_detect);
        assert_eq!(r.idle_cfg.rx_idle_en, !features.rx_idle_detect);
        assert!(!dma_requests(&r, features));
        if features.fine_fifo_thrld {
            // the whole register is written, with DMA requests off
            assert_eq!(r.fcrr, Fcrr::zero());
            assert!(r.fcr.dmae);
        } else {
            assert!(r.fcr.fifoe);
            assert!(r.fcrr.dmae);
        }
    }
}

#[test]
fn interrupt_acknowledges_the_idle_flag() {
    let mut r = UartRegs::new();
    let mut s = State::new();
    r.rxidle_flag = true;
    r.idle_cfg.rx_idle_en = true;
    r.ier.etxidle = true;
    r.ier.erxidle = true;
    on_interrupt(&mut r, &mut s, fine(), Lsr::zero());
    assert!(!r.rxidle_flag);
    assert!(!r.idle_cfg.rx_idle_en);
    assert!(!r.ier.etxidle);
    assert!(r.ier.erxidle);
    // with idle detection off the flag is left alone
    let mut r = UartRegs::new();
    r.rxidle_flag = true;
    r.ier.etxidle = true;
    let before = r;
    on_interrupt(&mut r, &mut s, fine(), Lsr::zero());
    assert_eq!(r, before);
    // and so it is on a UART without the second register
    let mut r = UartRegs::new();
    r.rxidle_flag = true;
    r.idle_cfg.rx_idle_en = true;
    let before = r;
    on_interrupt(&mut r, &mut s, legacy(), Lsr::zero());
    assert_eq!(r, before);
}

#[test]
fn interrupt_on_an_idle_line_status() {
    let mut s = State::new();
    let mut r = UartRegs::new();
    r.ier.erxidle = true;
    r.ier.etxidle = true;
    r.idle_cfg.rx_idle_en = true;
    on_interrupt(&mut r, &mut s, idle_in_status(), lsr_with(|l| l.rxidle = true));
    assert!(!r.ier.etxidle);
    assert!(r.ier.erxidle);
    assert!(r.idle_cfg.rx_idle_en);
    // not idle: nothing changes
    let mut r = UartRegs::new();
    r.ier.erxidle = true;
    r.ier.etxidle = true;
    let before = r;
    on_interrupt(&mut r, &mut s, idle_in_status(), Lsr::zero());
    assert_eq!(r, before);
    // idle interrupt off: nothing changes
    let mut r = UartRegs::new();
    r.ier.etxidle = true;
    let before = r;
    on_interrupt(&mut r, &mut s, idle_in_status(), lsr_with(|l| l.rxidle = true));
    assert_eq!(r, before);
}

#[test]
fn interrupt_handler_of_an_instance() {
    let handler = InterruptHandler { info: info(fine()) };
    let mut r = UartRegs::new();
    let mut s = State::new();
    r.ier.elsi = true;
    r.fcrr.dmae = true;
    let lsr = lsr_with(|l| l.fe = true);
    handler.on_interrupt(&mut r, &mut s, lsr);
    assert_eq!(s.saved_lsr, lsr);
    assert!(!r.ier.elsi);
    assert!(!r.fcrr.dmae);
}

#[test]
fn read_of_an_empty_buffer_touches_nothing() {
    let mut b = bench();
    let mut rx = new_rx(&mut b, fine(), Config::default());
    let (r0, dma0, mux0) = (b.r, b.dma, b.mux);
    for idle in [false, true] {
        let started = rx.inner_read(&mut b.r, &mut b.dma, &mut b.mux, RBR, BUF, 0, idle);
        match started {
            Err(early) => assert_eq!(early, Ok(0)),
            Ok(_) => panic!("a receive was started for an empty buffer"),
        }
        assert_eq!(b.r, r0);
        assert_eq!(b.dma, dma0);
        assert_eq!(b.mux, mux0);
        assert!(rx.rx_dma.is_some());
    }
    assert!(matches!(rx.read(&mut b.r, &mut b.dma, &mut b.mux, RBR, BUF, 0), Err(Ok(0))));
    assert!(matches!(
        rx.read_until_idle(&mut b.r, &mut b.dma, &mut b.mux, RBR, BUF, 0),
        Err(Ok(0))
    ));
    assert_eq!(b.r, r0);
}

#[test]
fn read_of_an_empty_buffer_needs_no_channel() {
    let mut b = bench();
    let mut rx = UartRx::new_blocking(
        &mut b.r,
        &mut b.irq,
        &mut b.s,
        &mut b.sysctl,
        info(legacy()),
        Hertz(24_000_000),
        RX_PIN,
        Config::default(),
    )
    .expect("a valid configuration");
    assert!(rx.rx_dma.is_none());
    assert!(matches!(
        rx.inner_read(&mut b.r, &mut b.dma, &mut b.mux, RBR, BUF, 0, false),
        Err(Ok(0))
    ));
    assert!(matches!(
        rx.inner_read(&mut b.r, &mut b.dma, &mut b.mux, RBR, BUF, 0x10000, false),
        Err(Err(Error::BufferTooLong))
    ));
}

#[test]
fn read_of_a_buffer_too_long_touches_nothing() {
    let mut b = bench();
    let mut rx = new_rx(&mut b, legacy(), Config::default());
    let (r0, dma0, mux0) = (b.r, b.dma, b.mux);
    for len in [MAX_DMA_BUFFER + 1, 0x2_0000, usize::MAX] {
        let started = rx.inner_read(&mut b.r, &mut b.dma, &mut b.mux, RBR, BUF, len, true);
        match started {
            Err(early) => assert_eq!(early, Err(Error::BufferTooLong)),
            Ok(_) => panic!("a receive was started for a buffer too long"),
        }
        assert_eq!(b.r, r0);
        assert_eq!(b.dma, dma0);
        assert_eq!(b.mux, mux0);
        assert!(rx.rx_dma.is_some());
    }
    assert_eq!(MAX_DMA_BUFFER, 0xFFFF);
}

#[test]
fn read_lengths_answered_at_once() {
    assert_eq!(check_read_length(0), Some(Ok(0)));
    assert_eq!(check_read_length(1), None);
    assert_eq!(check_read_length(0xFFFF), None);
    assert_eq!(check_read_length(0x10000), Some(Err(Error::BufferTooLong)));
    assert_eq!(check_read_length(usize::MAX), Some(Err(Error::BufferTooLong)));
}

#[test]
fn read_of_the_longest_buffer_is_started() {
    let mut b = bench();
    let mut rx = new_rx(&mut b, legacy(), Config::default());
    let started = rx.inner_read(&mut b.r, &mut b.dma, &mut b.mux, RBR, BUF, 0xFFFF, false);
    assert!(started.is_ok());
    assert_eq!(b.dma.chctrl[5].tran_size, 0xFFFF);
}

#[test]
fn read_starts_the_transfer_and_arms_the_uart() {
    for features in all_features() {
        for idle in [false, true] {
            let mut b = bench();
            let mut rx = new_rx(&mut b, features, Config::default());
            let before = b.r;
            let started = rx
                .inner_read(&mut b.r, &mut b.dma, &mut b.mux, RBR, BUF, 64, idle)
                .ok()
                .expect("the receive is started");
            // the channel is lent to the transfer
            assert!(rx.rx_dma.is_none());
            let mut transfer = started.transfer;
            assert!(transfer.is_running(&b.dma));
            assert_eq!(transfer.state(&b.dma), TransferState::Running);
            assert!(started.clear_line_status);
            let ch = b.dma.chctrl[5];
            assert_eq!(ch.src_addr, RBR);
            assert_eq!(ch.dst_addr, BUF);
            assert_eq!(ch.tran_size, 64);
            assert_eq!(ch.ctrl.srcaddrctrl, AddrCtrl::FIXED);
            assert_eq!(ch.ctrl.dstaddrctrl, AddrCtrl::INCREMENT);
            assert_eq!(ch.ctrl.srcmode, Mode::HANDSHAKE);
            assert_eq!(b.mux.muxcfg[5], MuxCfg { enable: true, source: 11 });
            // the UART is armed
            assert!(b.r.ier.elsi);
            assert!(dma_requests(&b.r, features));
            let with_idle = idle && features.rx_idle_detect;
            assert_eq!(b.r.ier.erxidle, with_idle);
            assert_eq!(b.r.idle_cfg.rx_idle_en, with_idle);
            // and nothing else has changed
            let mut expect = before;
            expect.ier.elsi = true;
            expect.ier.erxidle = with_idle;
            expect.idle_cfg.rx_idle_en = with_idle;
            if features.fine_fifo_thrld {
                expect.fcrr.dmae = true;
            } else {
                expect.fcr.dmae = true;
            }
            assert_eq!(b.r, expect);
        }
    }
}

#[test]
fn read_keeps_the_stale_line_status_where_overruns_are_detected() {
    let mut b = bench();
    let mut c = Config::default();
    c.detect_previous_overrun = true;
    let mut rx = new_rx(&mut b, fine(), c);
    assert!(rx.detect_previous_overrun);
    let started = rx
        .inner_read(&mut b.r, &mut b.dma, &mut b.mux, RBR, BUF, 8, false)
        .ok()
        .expect("the receive is started");
    assert!(!started.clear_line_status);
}

#[test]
fn abort_check_takes_the_saved_line_status() {
    let mut b = bench();
    let rx = new_rx(&mut b, fine(), Config::default());
    let (_count, waker) = counting_waker();
    b.s.saved_lsr = lsr_with(|l| l.pe = true);
    assert_eq!(rx.poll_abort(&mut b.s, &waker, &b.r, false), Poll::Ready(Err(Error::Parity)));
    // taken: a second look finds nothing
    assert_eq!(b.s.saved_lsr, Lsr::zero());
    assert_eq!(rx.poll_abort(&mut b.s, &waker, &b.r, false), Poll::Pending);
    assert_eq!(b.s.tx_rx_refcount, 1);
}

#[test]
fn abort_check_sees_the_idle_line() {
    let (_count, waker) = counting_waker();
    // the idle flag in its own register
    let mut b = bench();
    let rx = new_rx(&mut b, fine(), Config::default());
    b.r.rxidle_flag = true;
    assert_eq!(rx.poll_abort(&mut b.s, &waker, &b.r, true), Poll::Ready(Ok(())));
    // only where the receive asked for idle detection
    assert_eq!(rx.poll_abort(&mut b.s, &waker, &b.r, false), Poll::Pending);
    // the idle flag in the line status
    let mut b = bench();
    let rx = new_rx(&mut b, idle_in_status(), Config::default());
    b.s.saved_lsr = lsr_with(|l| l.rxidle = true);
    assert_eq!(rx.poll_abort(&mut b.s, &waker, &b.r, true), Poll::Ready(Ok(())));
    b.s.saved_lsr = lsr_with(|l| l.rxidle = true);
    assert_eq!(rx.poll_abort(&mut b.s, &waker, &b.r, false), Poll::Pending);
    // its own register does not count on this UART
    b.r.rxidle_flag = true;
    assert_eq!(rx.poll_abort(&mut b.s, &waker, &b.r, true), Poll::Pending);
    // a UART without idle detection never sees the line idle
    let mut b = bench();
    let rx = new_rx(&mut b, legacy(), Config::default());
    b.s.saved_lsr = lsr_with(|l| l.rxidle = true);
    b.r.rxidle_flag = true;
    assert_eq!(rx.poll_abort(&mut b.s, &waker, &b.r, true), Poll::Pending);
    // an error comes before the idle line
    let mut b = bench();
    let rx = new_rx(&mut b, idle_in_status(), Config::default());
    b.s.saved_lsr = lsr_with(|l| {
        l.rxidle = true;
        l.lbreak = true;
    });
    assert_eq!(rx.poll_abort(&mut b.s, &waker, &b.r, true), Poll::Ready(Err(Error::LineBreak)));
}

#[test]
fn abort_check_registers_the_waker() {
    let mut b = bench();
    let rx = new_rx(&mut b, legacy(), Config::default());
    let (count, waker) = counting_waker();
    assert_eq!(rx.poll_abort(&mut b.s, &waker, &b.r, false), Poll::Pending);
    on_interrupt(&mut b.r, &mut b.s, legacy(), Lsr::zero());
    on_interrupt(&mut b.r, &mut b.s, legacy(), Lsr::zero());
    assert_eq!(count.0.load(Ordering::SeqCst), 2);
}

#[test]
fn completion_of_a_read() {
    assert_eq!(complete_read(First::Transfer, 64, 0), Ok(ReadCompletionEvent::DmaCompleted));
    assert_eq!(complete_read(First::Transfer, 64, 10), Ok(ReadCompletionEvent::DmaCompleted));
    assert_eq!(complete_read(First::Abort(Ok(())), 64, 10), Ok(ReadCompletionEvent::Idle(54)));
    assert_eq!(complete_read(First::Abort(Ok(())), 64, 64), Ok(ReadCompletionEvent::Idle(0)));
    assert_eq!(complete_read(First::Abort(Ok(())), 64, 0), Ok(ReadCompletionEvent::Idle(64)));
    assert_eq!(complete_read(First::Abort(Err(Error::FIFO)), 64, 10), Err(Error::FIFO));
}

#[test]
fn idle_line_yields_the_bytes_moved_so_far() {
    let mut b = bench();
    let mut rx = new_rx(&mut b, fine(), Config::default());
    let started = rx
        .read_until_idle(&mut b.r, &mut b.dma, &mut b.mux, RBR, BUF, 100)
        .ok()
        .expect("the receive is started");
    let transfer = started.transfer;
    // the channel has moved 37 bytes when the line goes idle
    b.dma.chctrl[5].tran_size = 63;
    b.r.rxidle_flag = true;
    let (_count, waker) = counting_waker();
    assert_eq!(rx.poll_abort(&mut b.s, &waker, &b.r, true), Poll::Ready(Ok(())));
    let remaining = transfer.get_remaining_transfers(&b.dma);
    assert_eq!(remaining, 63);
    // the transfer is given up; the hardware completes the abort
    let transfer = transfer.cancel(&mut b.dma).err().expect("still running");
    b.dma.int_status |= 1 << (8 + 5);
    let channel = transfer.cancel(&mut b.dma).ok().expect("stopped");
    let res = rx.inner_read_done(
        &mut b.r,
        First::Abort(Ok(())),
        100,
        remaining,
        ChannelAndRequest { channel, request: 11 },
    );
    assert_eq!(res, Ok(37));
    assert!(rx.rx_dma.is_some());
    assert!(!b.r.ier.elsi && !b.r.ier.erxidle && !b.r.idle_cfg.rx_idle_en && !b.r.fcrr.dmae);
}

#[test]
fn completed_transfer_yields_the_whole_buffer() {
    let mut b = bench();
    let mut rx = new_rx(&mut b, legacy(), Config::default());
    let started = rx
        .read(&mut b.r, &mut b.dma, &mut b.mux, RBR, BUF, 100)
        .ok()
        .expect("the receive is started");
    b.dma.chctrl[5].tran_size = 0;
    b.dma.int_status |= 1 << (16 + 5);
    let remaining = started.transfer.get_remaining_transfers(&b.dma);
    let channel = started.transfer.blocking_wait(&b.dma).ok().expect("stopped");
    assert_eq!(channel.id(), 5);
    let back = ChannelAndRequest { channel, request: 11 };
    let res = rx.inner_read_done(&mut b.r, First::Transfer, 100, remaining, back);
    assert_eq!(res, Ok(100));
    assert!(!b.r.fcr.dmae && !b.r.ier.elsi);
    // a read without idle detection reports success alone
    let started = rx
        .read(&mut b.r, &mut b.dma, &mut b.mux, RBR, BUF, 100)
        .ok()
        .expect("the receive is started");
    b.dma.int_status |= 1 << (16 + 5);
    let channel = started.transfer.blocking_wait(&b.dma).ok().expect("stopped");
    let res = rx.read_done(
        &mut b.r,
        First::Transfer,
        100,
        0,
        ChannelAndRequest { channel, request: 11 },
    );
    assert_eq!(res, Ok(()));
    let started = rx
        .read(&mut b.r, &mut b.dma, &mut b.mux, RBR, BUF, 100)
        .ok()
        .expect("the receive is started");
    let transfer = started.transfer.cancel(&mut b.dma).err().expect("still running");
    b.dma.int_status |= 1 << (8 + 5);
    let channel = transfer.cancel(&mut b.dma).ok().expect("stopped");
    let res = rx.read_done(
        &mut b.r,
        First::Abort(Err(Error::Overrun)),
        100,
        100,
        ChannelAndRequest { channel, request: 11 },
    );
    assert_eq!(res, Err(Error::Overrun));
}

#[test]
fn each_line_error_ends_the_read_with_its_own_kind_and_cleans_up() {
    let cases: [(fn(&mut Lsr), Error); 5] = [
        (|l| l.pe = true, Error::Parity),
        (|l| l.fe = true, Error::Framing),
        (|l| l.oe = true, Error::Overrun),
        (|l| l.errf = true, Error::FIFO),
        (|l| l.lbreak = true, Error::LineBreak),
    ];
    let mut seen = Vec::new();
    for features in all_features() {
        for (set, expected) in cases {
            let mut b = bench();
            let mut rx = new_rx(&mut b, features, Config::default());
            let started = rx
                .read_until_idle(&mut b.r, &mut b.dma, &mut b.mux, RBR, BUF, 32)
                .ok()
                .expect("the receive is started");
            let (count, waker) = counting_waker();
            assert_eq!(rx.poll_abort(&mut b.s, &waker, &b.r, true), Poll::Pending);
            // the error is flagged while the receive is active
            on_interrupt(&mut b.r, &mut b.s, features, lsr_with(set));
            assert_eq!(count.0.load(Ordering::SeqCst), 1);
            let abort = rx.poll_abort(&mut b.s, &waker, &b.r, true);
            assert_eq!(abort, Poll::Ready(Err(expected)));
            let remaining = started.transfer.get_remaining_transfers(&b.dma);
            let transfer = started.transfer.cancel(&mut b.dma).err().expect("still running");
            b.dma.int_status |= 1 << (8 + 5);
            let channel = transfer.cancel(&mut b.dma).ok().expect("stopped");
            let res = rx.inner_read_done(
                &mut b.r,
                First::Abort(Err(expected)),
                32,
                remaining,
                ChannelAndRequest { channel, request: 11 },
            );
            assert_eq!(res, Err(expected));
            // the cleanup has run
            assert!(!dma_requests(&b.r, features));
            assert!(!b.r.idle_cfg.rx_idle_en);
            assert!(!b.r.ier.elsi);
            assert!(!b.r.ier.erxidle);
            assert!(!b.r.ier.ethei);
            if !seen.contains(&expected) {
                seen.push(expected);
            }
        }
    }
    // five flags, five kinds
    assert_eq!(seen.len(), 5);
}

#[test]
fn cleanup_returns_the_uart_to_its_neutral_state() {
    for features in all_features() {
        let mut r = UartRegs::new();
        r.ier = Ier {
            erbi: true,
            ethei: true,
            elsi: true,
            emsi: true,
            edatlost: true,
            eaddrm_idle: true,
            eaddrm: true,
            etxidle: true,
            erxidle: true,
        };
        r.idle_cfg.rx_idle_en = true;
        r.idle_cfg.rxen = true;
        r.fcrr.dmae = true;
        r.fcrr.fifoe = true;
        r.fcr.dmae = true;
        r.gpr.fifoe = true;
        let before = r;
        cleanup_read(&mut r, features);
        let mut expect = before;
        expect.ier.elsi = false;
        expect.ier.ethei = false;
        if features.rx_idle_detect {
            expect.ier.erxidle = false;
            expect.idle_cfg.rx_idle_en = false;
        }
        if features.nine_bit_mode {
            expect.ier.etxidle = false;
        }
        if features.fine_fifo_thrld {
            expect.fcrr.dmae = false;
        } else {
            expect.fcr = before.gpr;
            expect.fcr.dmae = false;
        }
        assert_eq!(r, expect);
    }
}

#[test]
fn rx_flags_and_single_bytes() {
    let mut b = bench();
    let mut rx = new_rx(&mut b, legacy(), Config::default());
    assert_eq!(rx.check_rx_flags(Lsr::zero()), Ok(false));
    assert_eq!(rx.check_rx_flags(lsr_with(|l| l.dr = true)), Ok(true));
    assert_eq!(rx.check_rx_flags(lsr_with(|l| l.fe = true)), Err(Error::Framing));
    let both = lsr_with(|l| {
        l.dr = true;
        l.oe = true;
    });
    assert_eq!(rx.check_rx_flags(both), Err(Error::Overrun));
    assert_eq!(rx.nb_read(Lsr::zero()), Err(NbError::WouldBlock));
    assert_eq!(rx.nb_read(lsr_with(|l| l.dr = true)), Ok(()));
    assert_eq!(rx.nb_read(lsr_with(|l| l.pe = true)), Err(NbError::Other(Error::Parity)));
    assert_eq!(rx.blocking_read(Lsr::zero()), Ok(false));
    assert_eq!(rx.blocking_read(lsr_with(|l| l.dr = true)), Ok(true));
    assert_eq!(rx.blocking_read(lsr_with(|l| l.lbreak = true)), Err(Error::LineBreak));
}

#[test]
fn write_brackets_the_transfer_with_dma_requests() {
    for features in [fine(), legacy()] {
        let mut b = bench();
        let mut tx = UartTx::new(
            &mut b.r,
            &mut b.s,
            &mut b.sysctl,
            info(features),
            Hertz(24_000_000),
            TX_PIN,
            dma_channel(2, 10),
            Config::default(),
        )
        .expect("a valid configuration");
        assert_eq!(b.s.tx_rx_refcount, 1);
        assert!(!dma_requests(&b.r, features));
        let transfer = tx.write(&mut b.r, &mut b.dma, &mut b.mux, THR, BUF, 12);
        assert_eq!(transfer.state(&b.dma), TransferState::Running);
        assert!(dma_requests(&b.r, features));
        assert!(tx.tx_dma.is_none());
        let ch = b.dma.chctrl[2];
        assert_eq!(ch.src_addr, BUF);
        assert_eq!(ch.dst_addr, THR);
        assert_eq!(ch.tran_size, 12);
        assert_eq!(ch.ctrl.srcaddrctrl, AddrCtrl::INCREMENT);
        assert_eq!(ch.ctrl.dstaddrctrl, AddrCtrl::FIXED);
        assert_eq!(ch.ctrl.dstmode, Mode::HANDSHAKE);
        assert_eq!(ch.ctrl.dstreqsel, 2);
        assert!(ch.ctrl.enable);
        assert_eq!(b.mux.muxcfg[2], MuxCfg { enable: true, source: 10 });
        // the transfer completes
        b.dma.int_status |= 1 << (16 + 2);
        let channel = transfer.blocking_wait(&b.dma).ok().expect("stopped");
        let res = tx.write_done(&mut b.r, ChannelAndRequest { channel, request: 10 });
        assert_eq!(res, Ok(()));
        assert!(!dma_requests(&b.r, features));
        assert!(tx.tx_dma.is_some());
    }
}

#[test]
fn blocking_transmitter_steps() {
    let mut b = bench();
    let mut tx = UartTx::new_blocking(
        &mut b.r,
        &mut b.s,
        &mut b.sysctl,
        info(legacy()),
        Hertz(24_000_000),
        TX_PIN,
        Config::default(),
    )
    .expect("a valid configuration");
    assert!(tx.tx_dma.is_none());
    assert_eq!(tx.blocking_write(Lsr::zero(), 0), WaitStep::Retry(1));
    assert_eq!(tx.blocking_write(lsr_with(|l| l.thre = true), 1), WaitStep::Done(Ok(())));
    assert_eq!(tx.blocking_write(Lsr::zero(), 5001), WaitStep::Done(Err(Error::Timeout)));
    assert_eq!(tx.blocking_flush(lsr_with(|l| l.temt = true), 0), WaitStep::Done(Ok(())));
    assert_eq!(tx.flush(Lsr::zero(), 5001), WaitStep::Done(Err(Error::Timeout)));
    assert_eq!(tx.flush(Lsr::zero(), 7), WaitStep::Retry(8));
}

#[test]
fn constructors_claim_the_clock_and_configure() {
    let mut b = bench();
    let tx = UartTx::new_blocking(
        &mut b.r,
        &mut b.s,
        &mut b.sysctl,
        info(fine()),
        Hertz(24_000_000),
        TX_PIN,
        Config::default(),
    )
    .expect("a valid configuration");
    assert_eq!(tx.info, info(fine()));
    assert_eq!(tx.kernel_clock, Hertz(24_000_000));
    // clock node 20 on the 24 MHz oscillator, resource 256 + 70 in group 0
    assert_eq!(b.sysctl.clock[20], ClockConfig { src: 0, raw_div: 0 });
    assert_eq!(b.sysctl.group0, [0, 0, 1 << 6]);
    assert_eq!(b.s.tx_rx_refcount, 1);
    assert_eq!(b.r.dll, 26);
    // the transmitter alone does not switch the receiver on
    assert!(!b.r.idle_cfg.rxen);

    let mut b = bench();
    let rx = new_rx(&mut b, fine(), Config::default());
    assert!(!rx.detect_previous_overrun);
    assert_eq!(b.s.tx_rx_refcount, 1);
    assert_eq!(b.irq, InterruptLine { enabled: true, pending: false });
    assert!(b.r.idle_cfg.rxen);
    assert_eq!(b.sysctl.group0, [0, 0, 1 << 6]);
}

#[test]
fn constructors_refuse_a_bad_rate() {
    let mut c = Config::default();
    c.baudrate = 50;
    let mut b = bench();
    let r0 = b.r;
    let res = UartTx::new_blocking(
        &mut b.r,
        &mut b.s,
        &mut b.sysctl,
        info(fine()),
        Hertz(24_000_000),
        TX_PIN,
        c,
    );
    assert_eq!(res.err(), Some(ConfigError::BaudrateTooHigh));
    assert_eq!(b.r, r0);
    // the half is given up again: none is counted, the clock is released
    assert_eq!(b.s.tx_rx_refcount, 0);
    assert_eq!(b.sysctl.group0, [0, 0, 0]);
    let res = UartRx::new_blocking(
        &mut b.r,
        &mut b.irq,
        &mut b.s,
        &mut b.sysctl,
        info(fine()),
        Hertz(24_000_000),
        RX_PIN,
        c,
    );
    assert_eq!(res.err(), Some(ConfigError::BaudrateTooHigh));
    assert_eq!(b.r, r0);
    assert_eq!(b.irq, InterruptLine { enabled: false, pending: true });
    assert_eq!(b.s.tx_rx_refcount, 0);
    assert_eq!(b.sysctl.group0, [0, 0, 0]);
    let res = Uart::new_blocking(
        &mut b.r,
        &mut b.irq,
        &mut b.s,
        &mut b.sysctl,
        info(fine()),
        Hertz(24_000_000),
        RX_PIN,
        TX_PIN,
        c,
    );
    assert_eq!(res.err(), Some(ConfigError::BaudrateTooHigh));
    assert_eq!(b.r, r0);
    assert_eq!(b.irq, InterruptLine { enabled: false, pending: true });
    assert_eq!(b.s.tx_rx_refcount, 0);
    assert_eq!(b.sysctl.group0, [0, 0, 0]);
    // the clock node keeps the setting that was made for the driver
    assert_eq!(b.sysctl.clock[20], ClockConfig { src: 0, raw_div: 0 });
}

#[test]
fn refused_constructors_release_a_clock_that_was_claimed_before() {
    let mut c = Config::default();
    c.baudrate = 50;
    let mut b = bench();
    // another resource of the same link word stays, the UART's own goes
    b.sysctl.group0 = [0, 0, (1 << 6) | (1 << 7)];
    let res = Uart::new(
        &mut b.r,
        &mut b.irq,
        &mut b.s,
        &mut b.sysctl,
        info(legacy()),
        Hertz(24_000_000),
        RX_PIN,
        TX_PIN,
        dma_channel(2, 10),
        dma_channel(5, 11),
        c,
    );
    assert_eq!(res.err(), Some(ConfigError::BaudrateTooHigh));
    assert_eq!(b.s.tx_rx_refcount, 0);
    assert_eq!(b.sysctl.group0, [0, 0, 1 << 7]);
}

#[test]
fn split_halves_release_the_clock_once_after_the_second_drop() {
    let mut b = bench();
    let uart = Uart::new(
        &mut b.r,
        &mut b.irq,
        &mut b.s,
        &mut b.sysctl,
        info(fine()),
        Hertz(24_000_000),
        RX_PIN,
        TX_PIN,
        dma_channel(2, 10),
        dma_channel(5, 11),
        Config::default(),
    )
    .expect("a valid configuration");
    assert_eq!(b.s.tx_rx_refcount, 2);
    assert_eq!(b.sysctl.group0, [0, 0, 1 << 6]);
    let (tx, rx) = uart.split();
    assert!(tx.tx_dma.is_some());
    assert!(rx.rx_dma.is_some());
    // the first half to go leaves the clock alone
    let (wait, pins) = tx.release(&mut b.s, &mut b.sysctl);
    assert!(!wait);
    assert_eq!(pins, [Some(TX_PIN), None, None]);
    assert_eq!(b.s.tx_rx_refcount, 1);
    assert_eq!(b.sysctl.group0, [0, 0, 1 << 6]);
    // the second releases it
    let (wait, pins) = rx.release(&mut b.s, &mut b.sysctl);
    assert!(wait);
    assert_eq!(pins, [Some(RX_PIN), None]);
    assert_eq!(b.s.tx_rx_refcount, 0);
    assert_eq!(b.sysctl.group0, [0, 0, 0]);
}

#[test]
fn split_halves_release_in_either_order() {
    let mut b = bench();
    let uart = Uart::new_blocking(
        &mut b.r,
        &mut b.irq,
        &mut b.s,
        &mut b.sysctl,
        info(legacy()),
        Hertz(24_000_000),
        RX_PIN,
        TX_PIN,
        Config::default(),
    )
    .expect("a valid configuration");
    let (tx, rx) = uart.split();
    assert!(!rx.release(&mut b.s, &mut b.sysctl).0);
    assert_eq!(b.sysctl.group0, [0, 0, 1 << 6]);
    assert!(tx.release(&mut b.s, &mut b.sysctl).0);
    assert_eq!(b.sysctl.group0, [0, 0, 0]);
    assert_eq!(b.s.tx_rx_refcount, 0);
}

#[test]
fn single_half_releases_the_clock() {
    let mut b = bench();
    let rx = new_rx(&mut b, fine(), Config::default());
    b.s.saved_lsr = lsr_with(|l| l.dr = true);
    let i = rx.info;
    assert!(drop_tx_rx(&i, &mut b.s, &mut b.sysctl));
    assert_eq!(b.s.tx_rx_refcount, 0);
    assert_eq!(b.sysctl.group0, [0, 0, 0]);
    assert_eq!(b.s.saved_lsr, lsr_with(|l| l.dr = true));
}

#[test]
fn uart_forwards_to_its_halves() {
    let mut b = bench();
    let mut uart = Uart::new(
        &mut b.r,
        &mut b.irq,
        &mut b.s,
        &mut b.sysctl,
        info(fine()),
        Hertz(24_000_000),
        RX_PIN,
        TX_PIN,
        dma_channel(2, 10),
        dma_channel(5, 11),
        Config::default(),
    )
    .expect("a valid configuration");
    assert_eq!(b.irq, InterruptLine { enabled: true, pending: false });
    assert_eq!(uart.blocking_write(lsr_with(|l| l.thre = true), 0), WaitStep::Done(Ok(())));
    assert_eq!(uart.blocking_flush(Lsr::zero(), 0), WaitStep::Retry(1));
    assert_eq!(uart.nb_read(Lsr::zero()), Err(NbError::WouldBlock));
    assert_eq!(uart.blocking_read(lsr_with(|l| l.dr = true)), Ok(true));
    let t = uart.write(&mut b.r, &mut b.dma, &mut b.mux, THR, BUF, 4);
    assert!(b.r.fcrr.dmae);
    assert_eq!(b.dma.chctrl[2].tran_size, 4);
    assert!(t.blocking_wait(&b.dma).is_err());
    let started = uart.read_until_idle(&mut b.r, &mut b.dma, &mut b.mux, RBR, BUF, 9);
    assert!(started.is_ok());
    assert!(b.r.ier.erxidle);
    assert_eq!(b.dma.chctrl[5].tran_size, 9);
    assert!(matches!(uart.read(&mut b.r, &mut b.dma, &mut b.mux, RBR, BUF, 0), Err(Ok(0))));
}

#[test]
fn set_config_of_a_half() {
    let mut b = bench();
    let mut rx = new_rx(&mut b, fine(), Config::default());
    let mut c = Config::default();
    c.baudrate = 9600;
    assert_eq!(rx.set_config(&mut b.r, &mut b.irq, &c), Ok(()));
    // 24 MHz / 9600 = 2500: divider 312 = 0x138 at a factor of 8
    assert_eq!((b.r.dlm, b.r.dll, b.r.oscr), (1, 0x38, 8));
    c.baudrate = 0;
    assert_eq!(rx.set_config(&mut b.r, &mut b.irq, &c), Err(ConfigError::BaudrateTooHigh));
    assert!(!b.irq.enabled);
}

#[test]
fn constructors_keep_the_pins_they_are_given() {
    let mut b = bench();
    let tx = UartTx::new_with_cts(
        &mut b.r,
        &mut b.s,
        &mut b.sysctl,
        info(fine()),
        Hertz(24_000_000),
        TX_PIN,
        CTS_PIN,
        dma_channel(2, 10),
        Config::default(),
    )
    .expect("a valid configuration");
    assert_eq!((tx.tx, tx.cts, tx.de), (Some(TX_PIN), Some(CTS_PIN), None));
    assert!(tx.tx_dma.is_some());
    let tx = UartTx::new_blocking_with_cts(
        &mut b.r,
        &mut b.s,
        &mut b.sysctl,
        info(fine()),
        Hertz(24_000_000),
        TX_PIN,
        CTS_PIN,
        Config::default(),
    )
    .expect("a valid configuration");
    assert_eq!((tx.tx, tx.cts, tx.de), (Some(TX_PIN), Some(CTS_PIN), None));
    assert!(tx.tx_dma.is_none());
    let (_, pins) = tx.release(&mut b.s, &mut b.sysctl);
    assert_eq!(pins, [Some(TX_PIN), Some(CTS_PIN), None]);

    let rx = UartRx::new_with_rts(
        &mut b.r,
        &mut b.irq,
        &mut b.s,
        &mut b.sysctl,
        info(fine()),
        Hertz(24_000_000),
        RX_PIN,
        RTS_PIN,
        dma_channel(5, 11),
        Config::default(),
    )
    .expect("a valid configuration");
    assert_eq!((rx.rx, rx.rts), (Some(RX_PIN), Some(RTS_PIN)));
    assert!(rx.rx_dma.is_some());
    let rx = UartRx::new_blocking_with_rts(
        &mut b.r,
        &mut b.irq,
        &mut b.s,
        &mut b.sysctl,
        info(fine()),
        Hertz(24_000_000),
        RX_PIN,
        RTS_PIN,
        Config::default(),
    )
    .expect("a valid configuration");
    assert!(rx.rx_dma.is_none());
    let (_, pins) = rx.release(&mut b.s, &mut b.sysctl);
    assert_eq!(pins, [Some(RX_PIN), Some(RTS_PIN)]);
}

#[test]
fn bidirectional_constructors_keep_the_pins_they_are_given() {
    let mut b = bench();
    let uart = Uart::new_with_rtscts(
        &mut b.r,
        &mut b.irq,
        &mut b.s,
        &mut b.sysctl,
        info(fine()),
        Hertz(24_000_000),
        RX_PIN,
        TX_PIN,
        RTS_PIN,
        CTS_PIN,
        dma_channel(2, 10),
        dma_channel(5, 11),
        Config::default(),
    )
    .expect("a valid configuration");
    assert_eq!(b.s.tx_rx_refcount, 2);
    let (tx, rx) = uart.split();
    assert_eq!((tx.tx, tx.cts, tx.de), (Some(TX_PIN), Some(CTS_PIN), None));
    assert_eq!((rx.rx, rx.rts), (Some(RX_PIN), Some(RTS_PIN)));
    assert_eq!(tx.tx_dma.map(|c| (c.channel.id(), c.request)), Some((2, 10)));
    assert_eq!(rx.rx_dma.map(|c| (c.channel.id(), c.request)), Some((5, 11)));

    let uart = Uart::new_with_de(
        &mut b.r,
        &mut b.irq,
        &mut b.s,
        &mut b.sysctl,
        info(fine()),
        Hertz(24_000_000),
        RX_PIN,
        TX_PIN,
        DE_PIN,
        dma_channel(2, 10),
        dma_channel(5, 11),
        Config::default(),
    )
    .expect("a valid configuration");
    let (tx, rx) = uart.split();
    assert_eq!((tx.tx, tx.cts, tx.de), (Some(TX_PIN), None, Some(DE_PIN)));
    assert_eq!((rx.rx, rx.rts), (Some(RX_PIN), None));

    let uart = Uart::new_blocking_with_rtscts(
        &mut b.r,
        &mut b.irq,
        &mut b.s,
        &mut b.sysctl,
        info(legacy()),
        Hertz(24_000_000),
        RX_PIN,
        TX_PIN,
        RTS_PIN,
        CTS_PIN,
        Config::default(),
    )
    .expect("a valid configuration");
    let (tx, rx) = uart.split();
    assert_eq!((tx.tx, tx.cts, tx.de), (Some(TX_PIN), Some(CTS_PIN), None));
    assert_eq!((rx.rx, rx.rts), (Some(RX_PIN), Some(RTS_PIN)));
    assert!(tx.tx_dma.is_none() && rx.rx_dma.is_none());

    let uart = Uart::new_blocking_with_de(
        &mut b.r,
        &mut b.irq,
        &mut b.s,
        &mut b.sysctl,
        info(legacy()),
        Hertz(24_000_000),
        RX_PIN,
        TX_PIN,
        DE_PIN,
        Config::default(),
    )
    .expect("a valid configuration");
    let (tx, rx) = uart.split();
    assert_eq!((tx.tx, tx.cts, tx.de), (Some(TX_PIN), None, Some(DE_PIN)));
    assert_eq!((rx.rx, rx.rts), (Some(RX_PIN), None));
}

/// A UART instance as a type.
struct Uart7;

impl ClockPeripheral for Uart7 {
    fn clock() -> PeripheralClock {
        PeripheralClock { sysctl_clock: 26, sysctl_resource: 256 + 41 }
    }
}

impl Instance for Uart7 {
    fn info() -> Info {
        Info { features: idle_in_status(), resource: 256 + 41, clock: 26 }
    }
}

#[test]
fn interrupt_handler_of_an_instance_type() {
    let handler = InterruptHandler::new::<Uart7>();
    assert_eq!(handler.info, Uart7::info());
    assert_eq!(handler.info.peripheral_clock(), Uart7::clock());
    let mut r = UartRegs::new();
    let mut s = State::new();
    r.ier.erxidle = true;
    r.ier.etxidle = true;
    handler.on_interrupt(&mut r, &mut s, lsr_with(|l| l.rxidle = true));
    assert!(!r.ier.etxidle);
    assert_eq!(s.saved_lsr, lsr_with(|l| l.rxidle = true));
}

#[test]
fn state_counts_halves_out() {
    let mut s = State::new();
    assert_eq!(s.tx_rx_refcount, 0);
    assert_eq!(s.saved_lsr, Lsr::zero());
    s.tx_rx_refcount = 3;
    assert!(!s.release_half());
    assert!(!s.release_half());
    assert!(s.release_half());
    assert_eq!(s.tx_rx_refcount, 0);
}

#[test]
fn uart_after_reset() {
    let r = UartRegs::new();
    assert_eq!(r.ier, Ier::none());
    assert_eq!(r.lcr, Lcr::zero());
    assert_eq!((r.oscr, r.dll, r.dlm), (0, 0, 0));
    assert_eq!(r.fcr, Fcr::zero());
    assert_eq!(r.gpr, Fcr::zero());
    assert_eq!(r.fcrr, Fcrr::zero());
    assert!(!r.idle_cfg.rxen && !r.idle_cfg.rx_idle_en && !r.rxidle_flag);
    assert!(!r.rx_fifo_reset && !r.tx_fifo_reset);
    assert_eq!(Fcr::zero().tfifot, TxFifoTrigger::NOT_FULL);
    assert_eq!(Fcr::zero().rfifot, RxFifoTrigger::NOT_EMPTY);
}
