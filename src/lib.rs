use vstd::prelude::*;

verus! {

/// What a `Dirty` cell holds, seen as plain data: the wrapped value and the
/// flag that says whether it may have changed since it was last acknowledged.
pub struct CellState<T> {
    pub value: T,
    pub dirty: bool,
}

impl<T> CellState<T> {
    /// The state of a freshly made cell: it has never been acknowledged.
    pub open spec fn fresh(value: T) -> CellState<T> {
        CellState { value, dirty: true }
    }

    /// The state after the value was handed out for writing and left as `value`.
    pub open spec fn written(self, value: T) -> CellState<T> {
        CellState { value, dirty: true }
    }

    /// The state after the flag was acknowledged.
    pub open spec fn cleared(self) -> CellState<T> {
        CellState { value: self.value, dirty: false }
    }
}

/// Wraps a value of type `T` and sets a flag whenever the value is handed
/// out for writing; the flag stays set until `clear` is called.
/// Reading, through `read` or by dereferencing, never touches the flag.
pub struct Dirty<T> {
    value: T,
    dirty: bool,
}

impl<T> View for Dirty<T> {
    type V = CellState<T>;

    closed spec fn view(&self) -> CellState<T> {
        CellState { value: self.value, dirty: self.dirty }
    }
}

impl<T> Dirty<T> {
    /// Makes a cell holding `val`, marked dirty.
    pub fn new(val: T) -> (r: Dirty<T>)
        ensures
            r@ == CellState::fresh(val),
    {
        Dirty { value: val, dirty: true }
    }

    /// Returns true if the cell is marked dirty, false otherwise.
    pub fn dirty(&self) -> (r: bool)
        ensures
            r == self@.dirty,
    {
        self.dirty
    }

    /// Hands out the value for writing and marks the cell dirty, whether or
    /// not the caller then changes the value.
    pub fn write(&mut self) -> (r: &mut T)
        ensures
            *r == old(self)@.value,
            final(self)@ == old(self)@.written(*final(r)),
    {
        self.dirty = true;
        &mut self.value
    }

    /// Reads the value; the flag is left as it is.
    pub fn read(&self) -> (r: &T)
        ensures
            *r == self@.value,
    {
        &self.value
    }

    /// Acknowledges the value: the cell is no longer marked dirty.
    pub fn clear(&mut self)
        ensures
            final(self)@ == old(self)@.cleared(),
    {
        self.dirty = false;
    }

    /// Reads the value only if the cell is marked dirty; the flag is left as it is.
    pub fn read_dirty(&self) -> (r: Option<&T>)
        ensures
            match r {
                Some(v) => self@.dirty && *v == self@.value,
                None => !self@.dirty,
            },
    {
        match self.dirty {
            true => Some(&self.value),
            false => None,
        }
    }
}

impl<T> core::ops::Deref for Dirty<T> {
    type Target = T;

    /// Reads the value, as `read` does.
    fn deref(&self) -> (r: &T)
        ensures
            *r == self@.value,
    {
        &self.value
    }
}

impl<T: core::default::Default> core::default::Default for Dirty<T> {
    /// Makes a cell holding `T`'s default value, marked dirty.
    fn default() -> (r: Dirty<T>)
        ensures
            call_ensures(T::default, (), r@.value),
            r@ == CellState::fresh(r@.value),
    {
        Dirty::new(T::default())
    }
}

/// Clearing a cell twice in a row leaves it as clearing it once does:
/// not dirty, holding the same value.
pub proof fn lemma_clear_idempotent<T>(c: Dirty<T>)
    ensures
        c@.cleared().cleared() == c@.cleared(),
        !c@.cleared().dirty,
        c@.cleared().value == c@.value,
{
}

/// Whatever value is left through the handle that `write` returns is the
/// value that a later read returns, and the cell is then dirty, whatever
/// state it was in before.
pub proof fn lemma_write_then_read<T>(c: Dirty<T>, v: T)
    ensures
        c@.written(v).value == v,
        c@.written(v).dirty,
{
}

} // verus!
