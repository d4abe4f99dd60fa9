use gocontroll_platform::bootstrap::{BootstrapCommand, BootstrapSequencer, EscapeBootloaderResponse,
    ModuleBringupState, ProbeVerdict, dummy_clock_frame, escape_frame, parse_escape_response,
    BOOTLOADER_ACTIVE, FAULT_CEILING, FIRMWARE_APPLICATION};
use gocontroll_platform::error::PlatformError;

#[test]
fn escape_frame_layout() {
    let tx = escape_frame();
    assert_eq!(tx.len(), 61);
    assert_eq!(tx[0], 19);
    assert_eq!(tx[1], 45);
    assert_eq!(tx[2], 19);
    // checksum over bytes 0..44: 19 + 45 + 19
    assert_eq!(tx[45], 83);
    for i in 3..45 {
        assert_eq!(tx[i], 0);
    }
}

#[test]
fn escape_response_roundtrip() {
    let mut rx = escape_frame();
    rx[6] = FIRMWARE_APPLICATION;
    // byte 6 is covered by the checksum: restamp it
    rx[45] = 83 + 20;
    let resp = parse_escape_response(&rx).unwrap();
    assert_eq!(
        resp,
        EscapeBootloaderResponse { bootloader: 19, firmware: FIRMWARE_APPLICATION }
    );
}

#[test]
fn escape_response_rejects_bad_checksum() {
    let mut rx = escape_frame();
    rx[6] = 1;
    assert_eq!(parse_escape_response(&rx), Err(PlatformError::DataIntegrityError));
}

#[test]
fn dummy_clock_frame_is_fixed() {
    assert_eq!(dummy_clock_frame(), vec![1, 2, 3, 4, 5, 6]);
}

#[test]
fn sequencer_reaches_ready_in_exactly_k_rounds() {
    for k in 1..=5u32 {
        let mut seq = BootstrapSequencer::new(vec![0]);
        seq.record_first_probe(0, BOOTLOADER_ACTIVE, FIRMWARE_APPLICATION);
        let mut rounds = 0u32;
        let mut faults_consumed = 0u32;
        loop {
            match seq.next_command() {
                BootstrapCommand::Probe(pos) => {
                    assert_eq!(pos, 0);
                    rounds += 1;
                    // the simulated module escapes on its k-th probe
                    let firmware = if rounds == k { FIRMWARE_APPLICATION } else { 0 };
                    match seq.step(firmware) {
                        ProbeVerdict::Advanced => {}
                        ProbeVerdict::CycleReset => faults_consumed += 1,
                        ProbeVerdict::Stalled => panic!("snapshot was primed: never stalls"),
                    }
                }
                BootstrapCommand::Complete => break,
                BootstrapCommand::Abort => panic!("k <= 5 must converge"),
            }
        }
        assert_eq!(rounds, k, "must converge in exactly k probing rounds");
        assert_eq!(faults_consumed, k - 1, "must consume exactly k-1 faults");
    }
}

#[test]
fn sequencer_exhausts_when_module_never_escapes() {
    // a module that would need more than five probes aborts the bring-up
    let mut seq = BootstrapSequencer::new(vec![0]);
    seq.record_first_probe(0, BOOTLOADER_ACTIVE, FIRMWARE_APPLICATION);
    let mut rounds = 0u32;
    loop {
        match seq.next_command() {
            BootstrapCommand::Probe(_) => {
                rounds += 1;
                assert_eq!(seq.step(0), ProbeVerdict::CycleReset);
            }
            BootstrapCommand::Abort => break,
            BootstrapCommand::Complete => panic!("must never complete"),
        }
    }
    assert_eq!(rounds, FAULT_CEILING as u32);
    assert_eq!(seq.position, 0, "the stuck module is never passed");
    assert_eq!(seq.state_of(0), ModuleBringupState::Faulted);
}

#[test]
fn later_slot_is_never_probed_before_earlier_resolves() {
    // modules at slots 3 and 5: slot 3 needs retries, slot 5 must wait
    let mut seq = BootstrapSequencer::new(vec![3, 5]);
    seq.record_first_probe(0, BOOTLOADER_ACTIVE, FIRMWARE_APPLICATION);
    seq.record_first_probe(1, BOOTLOADER_ACTIVE, 0);
    for _ in 0..3 {
        assert_eq!(seq.next_command(), BootstrapCommand::Probe(0));
        assert_eq!(seq.state_of(1), ModuleBringupState::Released);
        seq.step(0);
    }
    assert_eq!(seq.next_command(), BootstrapCommand::Probe(0));
    assert_eq!(seq.step(FIRMWARE_APPLICATION), ProbeVerdict::Advanced);
    assert_eq!(seq.state_of(0), ModuleBringupState::Ready);
    assert_eq!(seq.next_command(), BootstrapCommand::Probe(1));
    assert_eq!(seq.state_of(1), ModuleBringupState::Probing);
}

#[test]
fn unprimed_module_stalls_without_faults() {
    // without a first-probe snapshot of an escape, failed probes count no
    // faults and trigger no reset cycle
    let mut seq = BootstrapSequencer::new(vec![0]);
    seq.record_first_probe(0, BOOTLOADER_ACTIVE + 1, FIRMWARE_APPLICATION);
    assert_eq!(seq.next_command(), BootstrapCommand::Probe(0));
    assert_eq!(seq.step(0), ProbeVerdict::Stalled);
    assert_eq!(seq.faults, 0);
    assert_eq!(seq.step(FIRMWARE_APPLICATION), ProbeVerdict::Advanced);
    assert_eq!(seq.next_command(), BootstrapCommand::Complete);
}
