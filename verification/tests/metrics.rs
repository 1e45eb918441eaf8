use appsignal::{add_distribution_value, increment_counter, set_gauge};
use appsignal::{AgentCall, EncodeError, NativeText};

fn text(value: &str) -> NativeText {
    NativeText::encode(value).unwrap()
}

#[test]
fn gauge_passes_the_value_on() {
    let value: f32 = 1.5;
    assert_eq!(
        set_gauge("cpu.load", value.to_bits()),
        Ok(AgentCall::SetGauge { key: text("cpu.load"), value_bits: 0x3fc0_0000 })
    );
}

#[test]
fn gauge_keeps_every_bit_of_the_float() {
    for value in [0.0f32, -0.0, 1.0, -273.15, f32::MAX, f32::MIN_POSITIVE, f32::INFINITY] {
        match set_gauge("g", value.to_bits()) {
            Ok(AgentCall::SetGauge { value_bits, .. }) => {
                assert_eq!(f32::from_bits(value_bits).to_bits(), value.to_bits())
            }
            other => panic!("{:?}", other),
        }
    }
    match set_gauge("g", f32::NAN.to_bits()) {
        Ok(AgentCall::SetGauge { value_bits, .. }) => assert!(f32::from_bits(value_bits).is_nan()),
        other => panic!("{:?}", other),
    }
}

#[test]
fn counter_passes_the_count_on() {
    assert_eq!(
        increment_counter("requests", 3),
        Ok(AgentCall::IncrementCounter { key: text("requests"), count: 3 })
    );
    assert_eq!(
        increment_counter("requests", -3),
        Ok(AgentCall::IncrementCounter { key: text("requests"), count: -3 })
    );
}

#[test]
fn distribution_passes_the_value_on() {
    let value: f32 = 0.25;
    assert_eq!(
        add_distribution_value("latency", value.to_bits()),
        Ok(AgentCall::AddDistributionValue { key: text("latency"), value_bits: 0x3e80_0000 })
    );
}

#[test]
fn metrics_reject_a_nul_in_the_key() {
    assert_eq!(set_gauge("cpu\0", 0), Err(EncodeError::InteriorNul { position: 3 }));
    assert_eq!(increment_counter("\0", 1), Err(EncodeError::InteriorNul { position: 0 }));
    assert_eq!(
        add_distribution_value("la\0tency", 0),
        Err(EncodeError::InteriorNul { position: 2 })
    );
}
