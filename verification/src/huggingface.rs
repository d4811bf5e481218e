use vstd::prelude::*;

verus! {

/// The progress of a file fetched from the model hub: the size last reported,
/// and the size of the file.
#[derive(Debug)]
pub struct DownloadProgress {
    current: usize,
    total: usize,
}

/// The mathematical model of a `DownloadProgress`: (current, total).
pub struct HubProgressView {
    pub current: usize,
    pub total: usize,
}

impl View for DownloadProgress {
    type V = HubProgressView;

    closed spec fn view(&self) -> HubProgressView {
        HubProgressView { current: self.current, total: self.total }
    }
}

impl Clone for DownloadProgress {
    fn clone(&self) -> (res: Self)
        ensures
            res@ == self@,
    {
        DownloadProgress { current: self.current, total: self.total }
    }
}

impl DownloadProgress {
    /// No file announced yet.
    pub fn new() -> (p: DownloadProgress)
        ensures
            p@ == (HubProgressView { current: 0, total: 0 }),
    {
        DownloadProgress { current: 0, total: 0 }
    }

    /// The download of a file of `size` bytes begins.
    pub fn init(&mut self, size: usize, _filename: &str)
        ensures
            final(self)@ == (HubProgressView { current: 0, total: size }),
    {
        self.total = size;
        self.current = 0;
    }

    /// The hub reports `size`: it becomes the current size, the total stays.
    pub fn update(&mut self, size: usize)
        ensures
            final(self)@ == (HubProgressView { current: size, total: old(self)@.total }),
    {
        self.current = size;
    }

    /// The size last reported.
    pub fn current(&self) -> (c: usize)
        ensures
            c == self@.current,
    {
        self.current
    }

    /// The size of the file.
    pub fn total(&self) -> (t: usize)
        ensures
            t == self@.total,
    {
        self.total
    }
}

} // verus!
