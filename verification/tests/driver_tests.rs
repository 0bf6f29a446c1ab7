use nrf24::config::{DataPipe, DataRate, EncodingScheme, NrfConfig, PALevel, PayloadSize};
use nrf24::device::TransferError;
use nrf24::driver::Nrf24l01;
use nrf24::sim::SimChip;
use nrf24::status::StatusByte;

fn dynamic_config() -> NrfConfig {
    NrfConfig::default()
        .channel(98)
        .addr_width(5)
        .payload_size(PayloadSize::Dynamic)
        .data_rate(DataRate::R250Kbps)
        .pa_level(PALevel::Max)
        .crc_encoding_scheme(Some(EncodingScheme::R2Bytes))
}

#[test]
fn apply_round_trips_every_valid_channel() {
    for ch in 0u8..=125 {
        let cfg = NrfConfig::default().channel(ch);
        let mut nrf = Nrf24l01::new(SimChip::new(), cfg).expect("apply must round-trip");
        assert_eq!(nrf.device.regs[0x05], ch);
        assert!(nrf.is_connected().expect("bus never fails in simulation"));
    }
}

#[test]
fn apply_writes_the_configured_registers() {
    let nrf = Nrf24l01::new(SimChip::new(), dynamic_config()).unwrap();
    let chip = &nrf.device;
    assert_eq!(chip.regs[0x01], 0x3F); // auto-ack on all pipes
    assert_eq!(chip.regs[0x03], 0x03); // five-byte addresses, encoded as width - 2
    assert_eq!(chip.regs[0x06], 0x26); // 250 kbps | max power
    assert_eq!(chip.regs[0x1D], 0x04); // dynamic-payload feature
    assert_eq!(chip.regs[0x1C], 0x3F); // dynamic payloads on all pipes
    assert_eq!(chip.regs[0x05], 98); // channel
    assert_eq!(chip.regs[0x00], 0x0E); // two-byte CRC | power-up, not listening
}

#[test]
fn set_retries_packs_delay_and_count() {
    let mut nrf = Nrf24l01::new(SimChip::new(), dynamic_config()).unwrap();
    nrf.set_retries(5, 15).unwrap();
    assert_eq!(nrf.device.regs[0x04], 0x5F);
    nrf.set_retries(0, 0).unwrap();
    assert_eq!(nrf.device.regs[0x04], 0x00);
}

#[test]
fn open_reading_pipe_checks_address_length() {
    let cfg = dynamic_config();
    let mut nrf = Nrf24l01::new(SimChip::new(), cfg).unwrap();
    // pipes 2 to 5 take exactly their one trailing byte
    assert_eq!(
        nrf.open_reading_pipe(DataPipe::DP2, b"AB"),
        Err(TransferError::Communication)
    );
    assert_eq!(
        nrf.open_reading_pipe(DataPipe::DP5, b"MainN"),
        Err(TransferError::Communication)
    );
    assert_eq!(nrf.open_reading_pipe(DataPipe::DP3, b"N"), Ok(()));
    // pipes 0 and 1 take exactly the configured width
    assert_eq!(
        nrf.open_reading_pipe(DataPipe::DP1, b"Main"),
        Err(TransferError::Communication)
    );
    assert_eq!(
        nrf.open_reading_pipe(DataPipe::DP0, b"Node1!"),
        Err(TransferError::Communication)
    );
    assert_eq!(nrf.open_reading_pipe(DataPipe::DP1, b"MainN"), Ok(()));
    assert_eq!(nrf.open_reading_pipe(DataPipe::DP0, b"Node1"), Ok(()));
    // opening a pipe set its enable bit
    assert_eq!(nrf.device.regs[0x02] & 0x0B, 0x0B);
}

#[test]
fn open_writing_pipe_mirrors_address_onto_pipe_zero() {
    let mut nrf = Nrf24l01::new(SimChip::new(), dynamic_config()).unwrap();
    assert_eq!(
        nrf.open_writing_pipe(b"x"),
        Err(TransferError::Communication)
    );
    assert_eq!(nrf.open_writing_pipe(b"Node1"), Ok(()));
    assert_eq!(nrf.device.tx_addr, b"Node1".to_vec());
    assert_eq!(nrf.device.rx_addr_p0, b"Node1".to_vec());
}

#[test]
fn status_byte_decoding_is_exact() {
    // data ready on pipe 1
    let st = StatusByte::new(0x42);
    assert!(st.data_ready());
    assert!(!st.data_sent());
    assert!(!st.reached_max_retries());
    assert_eq!(st.data_pipe(), 1);
    assert_eq!(st.available_pipe(), Some(1));
    // data ready, pipe field reports the FIFO empty
    let st = StatusByte::new(0x4E);
    assert_eq!(st.data_pipe(), 7);
    assert_eq!(st.available_pipe(), None);
    // pipe field set but no data-ready flag
    let st = StatusByte::new(0x02);
    assert_eq!(st.available_pipe(), None);
    // completion flags
    let st = StatusByte::new(0x30);
    assert!(st.data_sent());
    assert!(st.reached_max_retries());
}

#[test]
fn data_available_reports_the_exact_pipe() {
    let mut nrf = Nrf24l01::new(SimChip::new(), dynamic_config()).unwrap();
    nrf.open_reading_pipe(DataPipe::DP1, b"MainN").unwrap();
    nrf.open_reading_pipe(DataPipe::DP4, b"N").unwrap();
    nrf.start_listening().unwrap();
    assert_eq!(nrf.data_available_on_pipe().unwrap(), None);
    assert!(!nrf.data_available().unwrap());
    assert!(nrf.device.inject_payload(4, b"abc"));
    assert_eq!(nrf.data_available_on_pipe().unwrap(), Some(DataPipe::DP4));
    assert!(nrf.data_available().unwrap());
    let mut buf: Vec<u8> = Vec::new();
    assert_eq!(nrf.read(&mut buf).unwrap(), 3);
    assert_eq!(buf, b"abc".to_vec());
    // the flag still stands, but the pipe field now reports empty: none
    assert_eq!(nrf.data_available_on_pipe().unwrap(), None);
}

#[test]
fn fixed_mode_reads_the_configured_length() {
    let cfg = NrfConfig::default().payload_size(PayloadSize::Fixed(8));
    let mut nrf = Nrf24l01::new(SimChip::new(), cfg).unwrap();
    nrf.open_reading_pipe(DataPipe::DP1, b"MainN").unwrap();
    assert_eq!(nrf.device.regs[0x12], 8); // expected payload length of pipe 1
    nrf.start_listening().unwrap();
    assert!(nrf.device.inject_payload(1, b"12345678"));
    let mut buf: Vec<u8> = Vec::new();
    assert_eq!(nrf.read(&mut buf).unwrap(), 8);
    assert_eq!(buf, b"12345678".to_vec());
}

#[test]
fn oversized_reported_width_fails_and_flushes() {
    let mut nrf = Nrf24l01::new(SimChip::new(), dynamic_config()).unwrap();
    nrf.open_reading_pipe(DataPipe::DP1, b"MainN").unwrap();
    nrf.start_listening().unwrap();
    assert!(nrf.device.inject_payload(1, b"hello"));
    nrf.device.force_reported_width(33);
    let mut buf: Vec<u8> = Vec::new();
    assert_eq!(nrf.read(&mut buf), Err(TransferError::Communication));
    assert!(buf.is_empty());
    // the receive FIFO was flushed instead of attempting an oversized read
    assert_eq!(nrf.device.rx_backlog(), 0);
    assert_eq!(nrf.data_available_on_pipe().unwrap(), None);
}

#[test]
fn reset_status_is_idempotent_on_pending_flags() {
    let mut nrf = Nrf24l01::new(SimChip::new(), dynamic_config()).unwrap();
    nrf.open_reading_pipe(DataPipe::DP1, b"MainN").unwrap();
    nrf.start_listening().unwrap();
    assert!(nrf.device.inject_payload(1, b"x"));
    assert!(nrf.device.irq_asserted());
    nrf.reset_status().unwrap();
    assert!(!nrf.device.irq_asserted());
    nrf.reset_status().unwrap();
    assert!(!nrf.device.irq_asserted());
}

#[test]
fn stop_listening_clears_receive_mode() {
    let mut nrf = Nrf24l01::new(SimChip::new(), dynamic_config()).unwrap();
    nrf.start_listening().unwrap();
    assert_eq!(nrf.device.regs[0x00] & 0x01, 0x01);
    assert!(nrf.device.ce);
    nrf.stop_listening().unwrap();
    assert_eq!(nrf.device.regs[0x00] & 0x01, 0x00);
    assert!(!nrf.device.ce);
}
