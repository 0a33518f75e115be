use humility::backend::{parse_probe, CORE_MAX_READSIZE};
use humility::errors::Error;
use humility::probe::{window_for, FlashEvent, FlashProgress, ProbeCore};
use humility::session::HaltTracker;
use humility::unattached::UnattachedCore;

#[test]
fn nested_brackets_balance() {
    // Two nested brackets around a previously-running target: the
    // physical halt fires exactly once, the physical run exactly once,
    // and the target is left running.
    let mut t = HaltTracker::new(true);
    let mut halts = 0;
    let mut runs = 0;
    if t.halt() {
        halts += 1;
    }
    if t.halt() {
        halts += 1;
    }
    if t.run() {
        runs += 1;
    }
    if t.run() {
        runs += 1;
    }
    assert_eq!(halts, 1);
    assert_eq!(runs, 1);
    assert_eq!(t.depth, 0);
    assert!(t.run_on_exit);
}

#[test]
fn bracket_keeps_halted_target_halted() {
    let mut t = HaltTracker::new(false);
    assert!(t.halt());
    assert!(!t.run());
    assert_eq!(t.depth, 0);
}

fn probe() -> ProbeCore {
    ProbeCore::new(String::from("probe"), 0x1234, 0x5678, None, false, false)
}

#[test]
fn probe_brackets_follow_discipline() {
    let mut p = probe();
    assert!(p.op_start());
    assert!(!p.op_start());
    assert!(!p.op_done());
    assert!(p.op_done());
    assert_eq!(p.tracker.depth, 0);
}

#[test]
fn unhalted_reads_skip_brackets() {
    let mut p = ProbeCore::new(String::from("probe"), 0, 0, None, true, false);
    assert!(!p.op_start());
    assert!(!p.op_done());
    assert_eq!(p.tracker.depth, 0);
}

#[test]
fn control_window_bypasses_halting() {
    let p = probe();
    // The peripheral control window reads without halting.
    assert!(p.unhalted_read_ok(0xe000_0000, 4));
    assert!(p.unhalted_read_ok(0xe000_ed00, 4));
    // Ordinary memory does not.
    assert!(!p.unhalted_read_ok(0x2000_0000, 4));
    assert!(!p.unhalted_read_ok(0xe010_0000, 4));
}

#[test]
fn window_lookup_picks_greatest_base() {
    let ws = vec![(0x1000u32, 0x100u32), (0x2000, 0x100)];
    assert_eq!(window_for(&ws, 0x1080), Some((0x1000, 0x100)));
    assert_eq!(window_for(&ws, 0x2080), Some((0x2000, 0x100)));
    assert_eq!(window_for(&ws, 0x0fff), None);
}

#[test]
fn transient_halt_decision() {
    let p = probe();
    assert!(p.needs_transient_halt(false));
    assert!(!p.needs_transient_halt(true));
    let mut held = probe();
    held.halt();
    assert!(!held.needs_transient_halt(false));
}

#[test]
fn read_size_bounded() {
    let p = probe();
    assert_eq!(p.check_read_size(CORE_MAX_READSIZE), Ok(()));
    assert_eq!(
        p.check_read_size(CORE_MAX_READSIZE + 1),
        Err(Error::ReadTooLarge(CORE_MAX_READSIZE + 1))
    );
}

#[test]
fn flashing_needs_explicit_chip() {
    let p = probe();
    assert_eq!(p.check_flash_allowed(), Err(Error::CannotFlash));
    let p = ProbeCore::new(String::from("probe"), 0, 0, None, false, true);
    assert_eq!(p.check_flash_allowed(), Ok(()));
}

#[test]
fn flash_progress_phases() {
    let mut p = FlashProgress::new();
    p.on_event(FlashEvent::Initialized { total_erase: 100, total_write: 200 });
    assert_eq!(p.total_erase, 100);
    assert_eq!(p.total_write, 200);
    p.on_event(FlashEvent::SectorErased { size: 40 });
    assert_eq!(p.erased, 40);
    // The first programmed page ends the erase phase.
    p.on_event(FlashEvent::PageProgrammed { size: 10 });
    assert_eq!(p.erased, 100);
    assert_eq!(p.written, 10);
    p.on_event(FlashEvent::PageProgrammed { size: 20 });
    assert_eq!(p.erased, 100);
    assert_eq!(p.written, 30);
    p.on_event(FlashEvent::Finished);
    assert_eq!(p.written, 30);
}

#[test]
fn probe_argument_split() {
    assert_eq!(parse_probe(b"usb-0"), (b"usb".to_vec(), Some(0)));
    assert_eq!(parse_probe(b"usb-12"), (b"usb".to_vec(), Some(12)));
    assert_eq!(parse_probe(b"usb"), (b"usb".to_vec(), None));
    // A second dash or a non-numeric suffix leaves the argument whole.
    assert_eq!(parse_probe(b"a-b-c"), (b"a-b-c".to_vec(), None));
    assert_eq!(parse_probe(b"usb-x"), (b"usb-x".to_vec(), None));
    assert_eq!(parse_probe(b"0483:374b"), (b"0483:374b".to_vec(), None));
}

#[test]
fn unattached_probe_refuses_target_operations() {
    let mut u = UnattachedCore::new(String::from("stlink"), 0x0483, 0x374b, None);
    assert_eq!(u.read_word_32(0), Err(Error::NotSupported));
    assert!(u.read_8(0, 4).is_err());
    assert_eq!(u.halt(), Err(Error::NotSupported));
    assert_eq!(u.run(), Err(Error::NotSupported));
    assert_eq!(u.step(), Err(Error::NotSupported));
    assert_eq!(u.load(), Err(Error::NotSupported));
    assert!(!u.is_dump());
    assert_eq!(u.identifier, "stlink");
}

#[test]
fn window_lookup_later_entry_wins_tie() {
    // A re-registered base overrides the earlier window.
    let ws = vec![(0x1000u32, 0x10u32), (0x1000, 0x200)];
    assert_eq!(window_for(&ws, 0x1100), Some((0x1000, 0x200)));
}
