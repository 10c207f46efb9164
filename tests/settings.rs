use serial_console::config::{
    match_data_bits, match_flow_control, match_parity, match_stop_bits,
    parse_arguments_into_serialport, SessionArgs, READ_TIMEOUT_MS,
};
use serialport::{DataBits, FlowControl, Parity, StopBits};

#[test]
fn data_bits_mapping() {
    assert_eq!(match_data_bits(5), DataBits::Five);
    assert_eq!(match_data_bits(6), DataBits::Six);
    assert_eq!(match_data_bits(7), DataBits::Seven);
    assert_eq!(match_data_bits(8), DataBits::Eight);
    assert_eq!(match_data_bits(9), DataBits::Eight);
}

#[test]
fn parity_mapping() {
    for t in ["N", "n", "none", "NONE", "", "x", "nonee"] {
        assert_eq!(match_parity(t), Parity::None, "{}", t);
    }
    for t in ["O", "o", "odd", "Odd"] {
        assert_eq!(match_parity(t), Parity::Odd, "{}", t);
    }
    for t in ["E", "e", "even", "EVEN"] {
        assert_eq!(match_parity(t), Parity::Even, "{}", t);
    }
}

#[test]
fn stop_bits_mapping() {
    assert_eq!(match_stop_bits(1), StopBits::One);
    assert_eq!(match_stop_bits(2), StopBits::Two);
    assert_eq!(match_stop_bits(3), StopBits::One);
}

#[test]
fn flow_control_mapping() {
    for t in ["N", "n", "none", "q"] {
        assert_eq!(match_flow_control(t), FlowControl::None, "{}", t);
    }
    for t in ["H", "h", "hardware", "HardWare"] {
        assert_eq!(match_flow_control(t), FlowControl::Hardware, "{}", t);
    }
    for t in ["S", "s", "software", "SOFTWARE"] {
        assert_eq!(match_flow_control(t), FlowControl::Software, "{}", t);
    }
}

#[test]
fn arguments_to_port_config() {
    let args = SessionArgs {
        device: "/dev/ttyUSB0".to_string(),
        baud_rate: 115200,
        data_bits: 7,
        parity: "e".to_string(),
        stop_bits: 2,
        flow_control: "S".to_string(),
    };
    let cfg = parse_arguments_into_serialport(&args);
    assert_eq!(cfg.device, "/dev/ttyUSB0");
    assert_eq!(cfg.baud_rate, 115200);
    assert_eq!(cfg.data_bits, DataBits::Seven);
    assert_eq!(cfg.parity, Parity::Even);
    assert_eq!(cfg.stop_bits, StopBits::Two);
    assert_eq!(cfg.flow_control, FlowControl::Software);
    assert_eq!(cfg.timeout_ms, READ_TIMEOUT_MS);
    assert_eq!(READ_TIMEOUT_MS, 10);
}
