//! The two datagram destinations: one for the input relay, one for the signal.
use vstd::prelude::*;

verus! {

/// Port of the input-relay channel on every host.
pub const INPUT_PORT: u16 = 4600;

/// Port of the signal channel on every host.
pub const SIGNAL_PORT: u16 = 4300;

/// One of the two independent streams.
#[derive(Clone, Copy, Debug, PartialEq, Eq, Structural)]
pub enum Channel {
    Input,
    Signal,
}

/// A datagram destination.
#[derive(Debug)]
pub struct Endpoint {
    pub host: String,
    pub port: u16,
}

impl Clone for Endpoint {
    fn clone(&self) -> (r: Self)
        ensures
            r == *self,
    {
        Endpoint { host: self.host.clone(), port: self.port }
    }
}

impl Endpoint {
    pub open spec fn new_spec(host: String, port: u16) -> Endpoint {
        Endpoint { host, port }
    }

    pub fn new(host: String, port: u16) -> (r: Endpoint)
        ensures
            r == Endpoint::new_spec(host, port),
    {
        Endpoint { host, port }
    }
}

/// The destinations of both channels.
#[derive(Debug)]
pub struct EndpointPair {
    pub input: Endpoint,
    pub signal: Endpoint,
}

impl Clone for EndpointPair {
    fn clone(&self) -> (r: Self)
        ensures
            r == *self,
    {
        EndpointPair { input: self.input.clone(), signal: self.signal.clone() }
    }
}

impl EndpointPair {
    /// The destination of one channel.
    pub open spec fn spec_destination(&self, ch: Channel) -> Endpoint {
        match ch {
            Channel::Input => self.input,
            Channel::Signal => self.signal,
        }
    }

    /// Both channels aimed at `host`, each on its own fixed port.
    pub open spec fn new_spec(host: &String) -> EndpointPair {
        EndpointPair {
            input: Endpoint::new_spec(*host, INPUT_PORT),
            signal: Endpoint::new_spec(*host, SIGNAL_PORT),
        }
    }

    pub fn new(host: &String) -> (r: EndpointPair)
        ensures
            r == EndpointPair::new_spec(host),
    {
        EndpointPair {
            input: Endpoint { host: host.clone(), port: INPUT_PORT },
            signal: Endpoint { host: host.clone(), port: SIGNAL_PORT },
        }
    }

    pub fn destination(&self, ch: Channel) -> (r: Endpoint)
        ensures
            r == self.spec_destination(ch),
    {
        match ch {
            Channel::Input => self.input.clone(),
            Channel::Signal => self.signal.clone(),
        }
    }

    /// Aims one channel at `host:port`; the other keeps its destination.
    pub fn rebind(&mut self, ch: Channel, host: String, port: u16)
        ensures
            final(self).spec_destination(ch) == Endpoint::new_spec(host, port),
            ch == Channel::Input ==> final(self).signal == old(self).signal,
            ch == Channel::Signal ==> final(self).input == old(self).input,
    {
        match ch {
            Channel::Input => {
                self.input = Endpoint { host, port };
            },
            Channel::Signal => {
                self.signal = Endpoint { host, port };
            },
        }
    }

    /// Aims both channels at `host`, ports unchanged from their fixed values.
    pub fn connect_host(&mut self, host: &String)
        ensures
            *final(self) == EndpointPair::new_spec(host),
    {
        self.rebind(Channel::Input, host.clone(), INPUT_PORT);
        self.rebind(Channel::Signal, host.clone(), SIGNAL_PORT);
    }
}

} // verus!
