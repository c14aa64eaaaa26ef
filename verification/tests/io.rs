use fieldbus_master::hal::io_mqtt::{DigitalInputMqtt, DigitalOutputMqtt};
use fieldbus_master::{DigitalInput, DigitalOutput};

#[test]
fn digital_input() {
    let input = DigitalInputMqtt {
        state: true,
        topic: "".to_string(),
    };
    assert!(input.get_state());
    let input = DigitalInputMqtt {
        state: false,
        topic: "".to_string(),
    };
    assert!(!input.get_state());
}

#[test]
fn digital_output() {
    let mut output = DigitalOutputMqtt {
        state: false,
        topic: "".to_string(),
    };
    assert!(!output.get_state());
    output.set_true();
    assert!(output.get_state());
    output.set_false();
    assert!(!output.get_state());
    output.set_output(true);
    assert!(output.get_state());
    output.set_output(false);
    assert!(!output.get_state());
}

#[test]
fn setters_preserve_the_topic() {
    let mut output = DigitalOutputMqtt {
        state: false,
        topic: "actuator/motor/M1".to_string(),
    };
    output.set_true();
    output.set_false();
    output.set_output(true);
    // Driving the state never changes where the value goes.
    assert_eq!(output.topic, "actuator/motor/M1");
}
