use vstd::prelude::*;

verus! {

/// The character device that the machine reads keys from and writes text to.
///
/// Nothing is assumed of what `read_byte` returns: the machine's contracts hold
/// for every byte that comes back.
pub trait Console {
    /// Blocks until one byte of input is available and returns it; zero stands
    /// for "no key".
    fn read_byte(&mut self) -> u8;

    /// Writes `bytes` as characters and flushes them.
    fn write_bytes(&mut self, bytes: &[u8]);
}

/// One byte that passed between the machine and its console.
#[derive(Clone, Copy, Debug, PartialEq, Eq, Structural)]
pub enum IoByte {
    /// A byte handed to the console to write.
    Out(u8),
    /// A byte that the console returned when asked for input.
    In(u8),
}

/// `bytes`, each as a byte handed out to write.
pub open spec fn outputs(bytes: Seq<u8>) -> Seq<IoByte> {
    bytes.map_values(|b: u8| IoByte::Out(b))
}

/// A console together with the record, in order, of every byte that the machine
/// handed to it and received from it.
pub struct Terminal<C: Console> {
    /// The device itself.
    pub device: C,
    /// The bytes exchanged with the device so far.
    pub log: Ghost<Seq<IoByte>>,
}

impl<C: Console> Terminal<C> {
    /// A terminal on `device`, with nothing exchanged yet.
    pub fn new(device: C) -> (r: Self)
        ensures
            r.log@ == Seq::<IoByte>::empty(),
    {
        Terminal { device, log: Ghost(Seq::empty()) }
    }

    /// Asks the device for one byte of input.
    pub fn read_byte(&mut self) -> (b: u8)
        ensures
            final(self).log@ == old(self).log@.push(IoByte::In(b)),
    {
        let b = self.device.read_byte();
        self.log = Ghost(self.log@.push(IoByte::In(b)));
        b
    }

    /// Hands `bytes` to the device to write.
    pub fn write_bytes(&mut self, bytes: &[u8])
        ensures
            final(self).log@ == old(self).log@ + outputs(bytes@),
    {
        self.device.write_bytes(bytes);
        self.log = Ghost(self.log@ + outputs(bytes@));
    }
}

} // verus!
