//! What every transport offers: capabilities, interface kinds and errors.
use vstd::prelude::*;
use std::rc::Rc;

verus! {

/// The kinds of interface a transport may offer.
#[derive(PartialEq, Eq, Structural, Clone, Copy, Debug)]
pub enum TransportInterfaceType {
    Uart,
    Gpio,
    Spi,
    I2c,
    Emulator,
}

/// Errors of a transport.
#[derive(Debug)]
pub enum TransportError {
    /// No instance of this kind has this name.
    InvalidInstance(TransportInterfaceType, String),
    /// The transport does not implement the operation.
    UnsupportedOperation,
    /// No instance id was given.
    MissingInstanceId,
}

/// The set of interface kinds that a transport offers.
#[derive(PartialEq, Eq, Structural, Clone, Copy, Debug)]
pub struct Capabilities {
    pub uart: bool,
    pub gpio: bool,
    pub spi: bool,
    pub i2c: bool,
    pub emulator: bool,
}

impl View for Capabilities {
    type V = Set<TransportInterfaceType>;

    open spec fn view(&self) -> Set<TransportInterfaceType> {
        Set::new(
            |k: TransportInterfaceType|
                match k {
                    TransportInterfaceType::Uart => self.uart,
                    TransportInterfaceType::Gpio => self.gpio,
                    TransportInterfaceType::Spi => self.spi,
                    TransportInterfaceType::I2c => self.i2c,
                    TransportInterfaceType::Emulator => self.emulator,
                },
        )
    }
}

impl Capabilities {
    /// Tells whether `kind` is offered.
    pub fn contains(&self, kind: TransportInterfaceType) -> (r: bool)
        ensures
            r == self@.contains(kind),
    {
        match kind {
            TransportInterfaceType::Uart => self.uart,
            TransportInterfaceType::Gpio => self.gpio,
            TransportInterfaceType::Spi => self.spi,
            TransportInterfaceType::I2c => self.i2c,
            TransportInterfaceType::Emulator => self.emulator,
        }
    }

    /// Fails with `UnsupportedOperation` unless `kind` is offered.
    pub fn require(&self, kind: TransportInterfaceType) -> (r: Result<(), TransportError>)
        ensures
            r is Ok <==> self@.contains(kind),
            r is Err ==> r->Err_0 is UnsupportedOperation,
    {
        if self.contains(kind) {
            Ok(())
        } else {
            Err(TransportError::UnsupportedOperation)
        }
    }
}

/// Where `name` stands among the names of a cache, if anywhere.
pub open spec fn cache_index<H>(cache: Seq<(String, H)>, name: Seq<char>) -> Option<int> {
    if exists|i: int| 0 <= i < cache.len() && cache[i].0@ == name {
        Some(choose|i: int| 0 <= i < cache.len() && cache[i].0@ == name)
    } else {
        None
    }
}

/// No name occurs twice in a cache.
pub open spec fn cache_names_unique<H>(cache: Seq<(String, H)>) -> bool {
    forall|i: int, j: int|
        0 <= i < cache.len() && 0 <= j < cache.len() && i != j ==> #[trigger] cache[i].0@
            != #[trigger] cache[j].0@
}

/// Finds the entry named `name` in a cache.
pub fn cache_find<H>(cache: &Vec<(String, H)>, name: &str) -> (r: Option<usize>)
    requires
        cache_names_unique(cache@),
    ensures
        r is None <==> cache_index(cache@, name@) is None,
        r is Some ==> cache_index(cache@, name@) == Some(r->Some_0 as int),
{
    let mut i: usize = 0;
    while i < cache.len()
        invariant
            i <= cache@.len(),
            cache_names_unique(cache@),
            forall|j: int| 0 <= j < i ==> cache@[j].0@ != name@,
        decreases cache@.len() - i,
    {
        let owned = name.to_owned();
        if cache[i].0 == owned {
            proof {
                let c = choose|j: int| 0 <= j < cache@.len() && cache@[j].0@ == name@;
                if c != i {
                    assert(cache@[c].0@ != cache@[i as int].0@);
                }
            }
            return Some(i);
        }
        i = i + 1;
    }
    None
}

/// Adds a handle under a name that is not yet in the cache.
pub(crate) fn cache_insert<H>(cache: &mut Vec<(String, Rc<H>)>, name: &str, handle: H) -> (r: Rc<H>)
    requires
        cache_names_unique(old(cache)@),
        cache_index(old(cache)@, name@) is None,
    ensures
        cache_names_unique(final(cache)@),
        *r == handle,
        final(cache)@.len() == old(cache)@.len() + 1,
        final(cache)@.subrange(0, old(cache)@.len() as int) == old(cache)@,
        final(cache)@.last().0@ == name@,
        final(cache)@.last().1 == r,
{
    let h = Rc::new(handle);
    let ghost before = cache@;
    cache.push((name.to_owned(), Rc::clone(&h)));
    proof {
        assert(cache@.subrange(0, before.len() as int) =~= before);
        assert forall|a: int, b: int|
            0 <= a < cache@.len() && 0 <= b < cache@.len() && a != b implies #[trigger] cache@[a].0@
            != #[trigger] cache@[b].0@ by {
            if a < before.len() && b < before.len() {
                assert(before[a].0@ != before[b].0@);
            } else if a < before.len() {
                assert(before[a].0@ != name@);
            } else if b < before.len() {
                assert(before[b].0@ != name@);
            }
        }
    }
    h
}

} // verus!
