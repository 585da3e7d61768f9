use vstd::prelude::*;

verus! {

/// Flow-control mode of a serial connection.
#[derive(PartialEq, Eq, Structural, Clone, Copy, Debug)]
pub enum FlowControl {
    Off,
    Software,
    Hardware,
}

/// Parity-check mode of a serial connection.
#[derive(PartialEq, Eq, Structural, Clone, Copy, Debug)]
pub enum Parity {
    Off,
    Even,
    Odd,
}

/// Number of stop bits of a serial connection.
#[derive(PartialEq, Eq, Structural, Clone, Copy, Debug)]
pub enum StopBits {
    One,
    Two,
}

/// A baud rate together with the label shown for it.
pub struct BaudRate {
    pub string_repr: &'static str,
    pub numeric_repr: u32,
}

/// The baud rates offered by default, lowest first.
pub fn baud_rates() -> (r: Vec<BaudRate>)
    ensures
        r@.len() == 3,
        r@[0].numeric_repr == 9600 && r@[0].string_repr@ == "9600"@,
        r@[1].numeric_repr == 38400 && r@[1].string_repr@ == "38400"@,
        r@[2].numeric_repr == 115200 && r@[2].string_repr@ == "115200"@,
{
    let mut r: Vec<BaudRate> = Vec::new();
    r.push(BaudRate { string_repr: "9600", numeric_repr: 9600 });
    r.push(BaudRate { string_repr: "38400", numeric_repr: 38400 });
    r.push(BaudRate { string_repr: "115200", numeric_repr: 115200 });
    r
}

/// Configuration describing how to open a serial transport.
#[derive(Clone, Debug)]
pub struct PortSettings {
    pub port_name: String,
    pub baudrate: u32,
    pub flowcontrol: FlowControl,
    pub parity: Parity,
    pub stop_bits: StopBits,
}

/// Abstract value of a `PortSettings`.
pub struct PortSettingsV {
    pub port_name: Seq<char>,
    pub baudrate: int,
    pub flowcontrol: FlowControl,
    pub parity: Parity,
    pub stop_bits: StopBits,
}

impl View for PortSettings {
    type V = PortSettingsV;

    open spec fn view(&self) -> PortSettingsV {
        PortSettingsV {
            port_name: self.port_name@,
            baudrate: self.baudrate as int,
            flowcontrol: self.flowcontrol,
            parity: self.parity,
            stop_bits: self.stop_bits,
        }
    }
}

impl PortSettings {
    /// An explicit value-preserving copy; the worker owns such a snapshot for
    /// its whole lifetime.
    pub fn snapshot(&self) -> (r: PortSettings)
        ensures
            r@ == self@,
    {
        PortSettings {
            port_name: self.port_name.clone(),
            baudrate: self.baudrate,
            flowcontrol: self.flowcontrol,
            parity: self.parity,
            stop_bits: self.stop_bits,
        }
    }
}

impl Default for PortSettings {
    /// No port selected yet, 115200 baud, no flow control, no parity, one
    /// stop bit.
    fn default() -> (r: Self)
        ensures
            r@.port_name.len() == 0,
            r@.baudrate == 115200,
            r@.flowcontrol == FlowControl::Off,
            r@.parity == Parity::Off,
            r@.stop_bits == StopBits::One,
    {
        PortSettings {
            port_name: String::new(),
            baudrate: 115200,
            flowcontrol: FlowControl::Off,
            parity: Parity::Off,
            stop_bits: StopBits::One,
        }
    }
}

} // verus!
