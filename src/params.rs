use vstd::prelude::*;

verus! {

/// The request that the interactive side hands to the processing side: the file to
/// load next and whether a load must run before more audio is processed.
///
/// Path and flag travel together in one value, so whoever holds it under one lock
/// sees both of one request, never the flag of one and the path of another.
pub struct IRLoaderParams {
    pub ir_file: Option<String>,
    pub need_reload: bool,
}

impl IRLoaderParams {
    /// No file chosen and no load pending.
    pub fn new() -> (r: Self)
        ensures
            r.ir_file.is_none(),
            !r.need_reload,
    {
        IRLoaderParams { ir_file: None, need_reload: false }
    }

    /// Raises or clears the pending-load flag; the chosen file stays.
    pub fn set_need_reload(&mut self, val: bool)
        ensures
            final(self).need_reload == val,
            final(self).ir_file == old(self).ir_file,
    {
        self.need_reload = val;
    }

    /// Whether a load must run before more audio is processed.
    pub fn get_need_reload(&self) -> (r: bool)
        ensures
            r == self.need_reload,
    {
        self.need_reload
    }

    /// Chooses `file` as the next impulse response and raises the flag, in one step:
    /// the latest choice replaces any earlier one that was not loaded yet.
    pub fn set_ir_file(&mut self, file: String)
        ensures
            final(self).ir_file == Some(file),
            final(self).need_reload,
    {
        self.ir_file = Some(file);
        self.need_reload = true;
    }

    /// The file chosen last, if any.
    pub fn get_ir_file(&self) -> (r: Option<String>)
        ensures
            r == self.ir_file,
    {
        match &self.ir_file {
            Some(f) => Some(f.clone()),
            None => None,
        }
    }
}

impl Default for IRLoaderParams {
    fn default() -> (r: Self)
        ensures
            r.ir_file.is_none(),
            !r.need_reload,
    {
        IRLoaderParams::new()
    }
}

} // verus!
