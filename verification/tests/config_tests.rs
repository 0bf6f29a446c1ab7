use nrf24::config::{DataPipe, DataRate, EncodingScheme, NrfConfig, PALevel, PayloadSize};

#[test]
fn default_configuration_is_valid() {
    let c = NrfConfig::default();
    assert_eq!(c.channel, 76);
    assert_eq!(c.addr_width, 5);
    assert_eq!(c.payload_size, PayloadSize::Fixed(32));
    assert_eq!(c.data_rate, DataRate::R1Mbps);
    assert_eq!(c.pa_level, PALevel::Min);
    assert_eq!(c.crc, Some(EncodingScheme::R1Byte));
}

#[test]
fn channel_saturates_at_largest_valid_value() {
    assert_eq!(NrfConfig::default().channel(125).channel, 125);
    assert_eq!(NrfConfig::default().channel(126).channel, 125);
    assert_eq!(NrfConfig::default().channel(255).channel, 125);
    assert_eq!(NrfConfig::default().channel(0).channel, 0);
}

#[test]
fn address_width_clamps_into_three_to_five() {
    assert_eq!(NrfConfig::default().addr_width(0).addr_width, 3);
    assert_eq!(NrfConfig::default().addr_width(2).addr_width, 3);
    assert_eq!(NrfConfig::default().addr_width(3).addr_width, 3);
    assert_eq!(NrfConfig::default().addr_width(5).addr_width, 5);
    assert_eq!(NrfConfig::default().addr_width(9).addr_width, 5);
}

#[test]
fn fixed_payload_size_clamps_into_one_to_thirty_two() {
    assert_eq!(
        NrfConfig::default().payload_size(PayloadSize::Fixed(0)).payload_size,
        PayloadSize::Fixed(1)
    );
    assert_eq!(
        NrfConfig::default().payload_size(PayloadSize::Fixed(33)).payload_size,
        PayloadSize::Fixed(32)
    );
    assert_eq!(
        NrfConfig::default().payload_size(PayloadSize::Dynamic).payload_size,
        PayloadSize::Dynamic
    );
}

#[test]
fn pipe_indices_cover_the_six_slots() {
    let pipes = [
        DataPipe::DP0,
        DataPipe::DP1,
        DataPipe::DP2,
        DataPipe::DP3,
        DataPipe::DP4,
        DataPipe::DP5,
    ];
    for (i, p) in pipes.iter().enumerate() {
        assert_eq!(p.index() as usize, i);
        assert_eq!(DataPipe::from_index(i as u8), *p);
    }
}
