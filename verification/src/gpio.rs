//! GPIO pin configuration and the interpretation of pin replies.

use vstd::prelude::*;

verus! {

/// How a pin is used.
#[derive(Clone, Copy, Debug, PartialEq, Eq, Structural)]
pub enum GpioPinType {
    Input,
    Output,
    Pwm,
}

/// A configured pin.
#[derive(Clone, Debug)]
pub struct GpioPinConfig {
    pub pin_number: u8,
    pub pin_name: String,
    pub pin_type: GpioPinType,
}

/// The pins the board is set up with: red LED on 17 and green LED on 27 as
/// outputs, the button on 18 as input.
pub fn default_pin_configs() -> (pins: Vec<GpioPinConfig>)
    ensures
        pins@.len() == 3,
        pins@[0].pin_number == 17 && pins@[0].pin_name@ == "LED_RED"@ && pins@[0].pin_type
            == GpioPinType::Output,
        pins@[1].pin_number == 27 && pins@[1].pin_name@ == "LED_GREEN"@ && pins@[1].pin_type
            == GpioPinType::Output,
        pins@[2].pin_number == 18 && pins@[2].pin_name@ == "BUTTON"@ && pins@[2].pin_type
            == GpioPinType::Input,
{
    let mut pins: Vec<GpioPinConfig> = Vec::new();
    pins.push(
        GpioPinConfig {
            pin_number: 17,
            pin_name: "LED_RED".to_owned(),
            pin_type: GpioPinType::Output,
        },
    );
    pins.push(
        GpioPinConfig {
            pin_number: 27,
            pin_name: "LED_GREEN".to_owned(),
            pin_type: GpioPinType::Output,
        },
    );
    pins.push(
        GpioPinConfig {
            pin_number: 18,
            pin_name: "BUTTON".to_owned(),
            pin_type: GpioPinType::Input,
        },
    );
    pins
}

/// A reply to a pin read: the level of `pin`.
#[derive(Clone, Copy, Debug, PartialEq, Eq, Structural)]
pub struct PinReading {
    pub pin: u8,
    pub value: bool,
}

/// Why a GPIO operation failed.
#[derive(Clone, Copy, Debug, PartialEq, Eq, Structural)]
pub enum GpioError {
    /// The reply was about another pin.
    WrongPin,
    /// No reply came in time.
    Timeout,
    /// A PWM duty cycle outside `0.0..=1.0`.
    InvalidDutyCycle,
}

impl GpioError {
    /// The message reported for the error.
    pub fn message(&self) -> (m: &'static str)
        ensures
            m@ == (match *self {
                GpioError::WrongPin => "收到错误的引脚响应"@,
                GpioError::Timeout => "读取引脚超时"@,
                GpioError::InvalidDutyCycle => "PWM占空比必须在0.0到1.0之间"@,
            }),
    {
        match self {
            GpioError::WrongPin => "收到错误的引脚响应",
            GpioError::Timeout => "读取引脚超时",
            GpioError::InvalidDutyCycle => "PWM占空比必须在0.0到1.0之间",
        }
    }
}

/// The outcome of reading `pin`, given the reply that arrived before the
/// deadline, if one did: its level when it is about `pin`.
pub fn read_pin_result(pin: u8, reply: Option<PinReading>) -> (r: Result<bool, GpioError>)
    ensures
        r == (match reply {
            Some(reading) => if reading.pin == pin {
                Ok(reading.value)
            } else {
                Err(GpioError::WrongPin)
            },
            None => Err(GpioError::Timeout),
        }),
{
    match reply {
        Some(reading) => {
            if reading.pin == pin {
                Ok(reading.value)
            } else {
                Err(GpioError::WrongPin)
            }
        },
        None => Err(GpioError::Timeout),
    }
}

} // verus!
