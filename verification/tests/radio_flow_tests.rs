use nrf24::config::{DataPipe, DataRate, EncodingScheme, NrfConfig, PALevel, PayloadSize};
use nrf24::device::TransferError;
use nrf24::driver::Nrf24l01;
use nrf24::notify::NotifySlot;
use nrf24::sim::SimChip;

fn dynamic_config() -> NrfConfig {
    NrfConfig::default()
        .channel(98)
        .addr_width(5)
        .payload_size(PayloadSize::Dynamic)
        .data_rate(DataRate::R250Kbps)
        .pa_level(PALevel::Max)
        .crc_encoding_scheme(Some(EncodingScheme::R2Bytes))
}

#[test]
fn write_delivers_with_acknowledgements() {
    let mut nrf = Nrf24l01::new(SimChip::new(), dynamic_config()).unwrap();
    nrf.set_retries(5, 15).unwrap();
    nrf.open_writing_pipe(b"Node1").unwrap();
    assert_eq!(nrf.write(b"ping"), Ok(()));
    assert_eq!(nrf.device.tx_backlog(), 0);
}

#[test]
fn write_without_acknowledgement_exhausts_retries_and_flushes() {
    let mut nrf = Nrf24l01::new(SimChip::new(), dynamic_config()).unwrap();
    nrf.set_retries(5, 15).unwrap();
    nrf.open_writing_pipe(b"Node1").unwrap();
    nrf.device.set_remote_ack(false);
    assert_eq!(nrf.write(b"ping"), Err(TransferError::MaximumRetries));
    // the stuck payload was flushed as recovery, so later sends are not blocked
    assert_eq!(nrf.device.tx_backlog(), 0);
    nrf.device.set_remote_ack(true);
    nrf.reset_status().unwrap();
    assert_eq!(nrf.write(b"ping"), Ok(()));
}

#[test]
fn interrupt_edges_coalesce_into_a_single_wake() {
    let mut slot = NotifySlot::new();
    // many edges before a single wait: one wake
    slot.notify();
    slot.notify();
    slot.notify();
    assert!(slot.wait());
    // no new edge: the next wait times out
    assert!(!slot.wait());
    // one edge, one wake, again
    slot.notify();
    assert!(slot.wait());
    assert!(!slot.wait());
}

#[test]
fn end_to_end_receive_flow() {
    let mut nrf = Nrf24l01::new(SimChip::new(), dynamic_config()).unwrap();
    nrf.set_retries(5, 15).unwrap();
    nrf.open_reading_pipe(DataPipe::DP1, b"MainN").unwrap();
    nrf.reset_status().unwrap();
    nrf.start_listening().unwrap();
    let mut slot = NotifySlot::new();

    // a ten-byte payload arrives on pipe 1; the falling edge posts
    let payload = b"0123456789";
    assert!(nrf.device.inject_payload(1, payload));
    if nrf.device.irq_asserted() {
        slot.notify();
    }
    assert!(slot.wait());

    // drain every available pipe, then clear the status once
    let mut drained = 0;
    let mut buf: Vec<u8> = Vec::new();
    while let Some(pipe) = nrf.data_available_on_pipe().unwrap() {
        assert_eq!(pipe, DataPipe::DP1);
        let len = nrf.read(&mut buf).unwrap();
        assert_eq!(len, 10);
        assert_eq!(buf, payload.to_vec());
        drained += 1;
    }
    assert_eq!(drained, 1);
    nrf.reset_status().unwrap();
    // the interrupt line deasserts
    assert!(!nrf.device.irq_asserted());
    // no new edge: a further wait times out
    assert!(!slot.wait());
}

#[test]
fn coalesced_edges_cannot_lose_backlog() {
    let mut nrf = Nrf24l01::new(SimChip::new(), dynamic_config()).unwrap();
    nrf.open_reading_pipe(DataPipe::DP1, b"MainN").unwrap();
    nrf.open_reading_pipe(DataPipe::DP2, b"N").unwrap();
    nrf.start_listening().unwrap();
    let mut slot = NotifySlot::new();

    // two packets, two edges, before the worker wakes once
    assert!(nrf.device.inject_payload(1, b"first"));
    slot.notify();
    assert!(nrf.device.inject_payload(2, b"second"));
    slot.notify();
    assert!(slot.wait());

    // the single wake drains the whole backlog
    let mut seen: Vec<DataPipe> = Vec::new();
    let mut buf: Vec<u8> = Vec::new();
    while let Some(pipe) = nrf.data_available_on_pipe().unwrap() {
        nrf.read(&mut buf).unwrap();
        seen.push(pipe);
    }
    assert_eq!(seen, vec![DataPipe::DP1, DataPipe::DP2]);
    nrf.reset_status().unwrap();
    assert!(!nrf.device.irq_asserted());
    assert!(!slot.wait());
}
