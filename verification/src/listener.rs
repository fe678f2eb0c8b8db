//! Opening the interface that a listener accepts streams from.
use vstd::prelude::*;

verus! {

/// Why a listener could not be bound.
#[derive(Debug)]
pub enum TunError {
    /// The device `name` could not be opened, or its MTU not be read; `source`
    /// is the reason that the device layer gave.
    Tun { source: String, name: String },
}

impl TunError {
    /// Whether it says that the device `device` failed because of `reason`.
    pub open spec fn is_about(&self, device: Seq<char>, reason: Seq<char>) -> bool {
        match self {
            TunError::Tun { source, name } => source@ == reason && name@ == device,
        }
    }

    /// The text by which the error is shown.
    pub fn message(&self) -> (text: String)
        ensures
            match self {
                TunError::Tun { source, name } => text@ == "Unable to open tun device "@ + name@
                    + ": "@ + source@,
            },
    {
        match self {
            TunError::Tun { source, name } => {
                let mut text = "Unable to open tun device ".to_owned();
                text.append(name.as_str());
                text.append(": ");
                text.append(source.as_str());
                text
            },
        }
    }
}

/// `mtu` as a count of octets. A negative one wraps around.
pub open spec fn transmission_unit(mtu: i32) -> int {
    if mtu >= 0 {
        mtu as int
    } else {
        usize::MAX + 1 + mtu
    }
}

/// The interface that streams are accepted from.
#[derive(Debug)]
pub struct TcpListener {
    /// The largest packet that the interface carries, in octets.
    pub max_transmission_unit: usize,
}

impl TcpListener {
    /// Decides what binding to the device `name` gives.
    ///
    /// `device` is what opening the device gave: a reason why not, or what
    /// reading its MTU gave, which again may be a reason why not.
    pub fn bind(name: &str, device: Result<Result<i32, String>, String>) -> (bound: Result<
        TcpListener,
        TunError,
    >)
        ensures
            match device {
                Ok(Ok(mtu)) => bound matches Ok(listener) && listener.max_transmission_unit
                    == transmission_unit(mtu),
                Ok(Err(reason)) => bound matches Err(error) && error.is_about(name@, reason@),
                Err(reason) => bound matches Err(error) && error.is_about(name@, reason@),
            },
            bound is Ok <==> (device matches Ok(Ok(_))),
            bound matches Ok(listener) ==> {
                let mtu = device->Ok_0->Ok_0;
                &&& mtu >= 0 ==> listener.max_transmission_unit == mtu
                &&& mtu < 0 ==> listener.max_transmission_unit - usize::MAX == mtu + 1
            },
            bound matches Err(TunError::Tun { source, name: about }) ==> {
                &&& about@ == name@
                &&& device matches Ok(Err(reason)) ==> source@ == reason@
                &&& device matches Err(reason) ==> source@ == reason@
            },
    {
        let mtu = match device {
            Ok(mtu) => mtu,
            Err(source) => {
                return Err(TunError::Tun { source, name: name.to_owned() });
            },
        };
        match mtu {
            Ok(mtu) => {
                assert(mtu < 0 && usize::BITS == 64 ==> (mtu as usize) == 0x1_0000_0000_0000_0000
                    + mtu) by (bit_vector);
                assert(mtu < 0 && usize::BITS == 32 ==> (mtu as usize) == 0x1_0000_0000 + mtu)
                    by (bit_vector);
                Ok(TcpListener { max_transmission_unit: #[verifier::truncate] (mtu as usize) })
            },
            Err(source) => Err(TunError::Tun { source, name: name.to_owned() }),
        }
    }
}

} // verus!
