//! The bus to the display: a peripheral and a buffer that a transfer takes away
//! and hands back.
use vstd::prelude::*;

verus! {

/// The peripheral `P` and the buffer `B` of the bus, while no transfer holds them.
pub struct Bus<P, B> {
    pub resources: Option<(P, B)>,
}

impl<P, B> Bus<P, B> {
    /// A bus that is ready for a transfer.
    pub fn new(peripheral: P, buffer: B) -> (bus: Bus<P, B>)
        ensures
            bus.resources == Some((peripheral, buffer)),
    {
        Bus { resources: Some((peripheral, buffer)) }
    }

    /// Lends peripheral and buffer to `f`, keeps what it hands back and returns
    /// its result. Needs a bus that holds them, and leaves it holding them.
    pub fn use_resources<T, F: FnOnce(P, B) -> (T, P, B)>(&mut self, f: F) -> (result: T)
        requires
            old(self).resources is Some,
            call_requires(f, (old(self).resources.unwrap().0, old(self).resources.unwrap().1)),
        ensures
            final(self).resources is Some,
            call_ensures(
                f,
                (old(self).resources.unwrap().0, old(self).resources.unwrap().1),
                (result, final(self).resources.unwrap().0, final(self).resources.unwrap().1),
            ),
    {
        let (peripheral, buffer) = self.resources.take().unwrap();
        let (result, peripheral, buffer) = f(peripheral, buffer);
        self.resources = Some((peripheral, buffer));
        result
    }
}

/// What a buffer holds once `bytes` are written to its beginning.
pub open spec fn overwrite(buffer: Seq<u8>, bytes: Seq<u8>) -> Seq<u8> {
    bytes + buffer.skip(bytes.len() as int)
}

/// Writing to the beginning of a buffer changes these bytes and no others.
pub proof fn law_overwrite_changes_the_front(buffer: Seq<u8>, bytes: Seq<u8>, i: int)
    requires
        bytes.len() <= buffer.len(),
        0 <= i < buffer.len(),
    ensures
        overwrite(buffer, bytes).len() == buffer.len(),
        i < bytes.len() ==> overwrite(buffer, bytes)[i] == bytes[i],
        i >= bytes.len() ==> overwrite(buffer, bytes)[i] == buffer[i],
{
}

/// Copies the parameters of a command to the beginning of the transfer buffer and
/// returns how many bytes the transfer has.
pub fn stage_command(buffer: &mut [u8], data: &[u8]) -> (len: usize)
    requires
        data@.len() <= old(buffer)@.len(),
    ensures
        final(buffer)@ == overwrite(old(buffer)@, data@),
        final(buffer)@.take(len as int) == data@,
        len == data@.len(),
        final(buffer)@.len() == old(buffer)@.len(),
        forall|i: int| 0 <= i < data@.len() ==> #[trigger] final(buffer)@[i] == data@[i],
        forall|i: int|
            data@.len() <= i < old(buffer)@.len() ==> #[trigger] final(buffer)@[i] == old(
                buffer,
            )@[i],
{
    let ghost before = buffer@;
    let mut i: usize = 0;
    while i < data.len()
        invariant
            i <= data@.len() <= before.len(),
            buffer@ == overwrite(before, data@.take(i as int)),
        decreases data@.len() - i,
    {
        buffer[i] = data[i];
        i = i + 1;
        assert(buffer@ == overwrite(before, data@.take(i as int)));
    }
    assert(data@.take(i as int) == data@);
    assert(buffer@.take(i as int) == data@);
    data.len()
}

} // verus!
