use vstd::prelude::*;

use super::descriptor::BufferDescriptor;
use crate::color::PixelFormat;

verus! {

/// Read access to caller-owned pixel memory laid out by a descriptor.
///
/// The memory always holds at least `stride × height` bytes.
#[derive(Clone, Copy, Debug)]
pub struct BufferView<'a> {
    data: &'a [u8],
    desc: BufferDescriptor,
}

impl<'a> BufferView<'a> {
    #[verifier::type_invariant]
    spec fn large_enough(self) -> bool {
        self.data@.len() >= self.desc.stride * self.desc.height
    }

    /// The bytes viewed.
    pub closed spec fn bytes(self) -> Seq<u8> {
        self.data@
    }

    /// The layout of the bytes.
    pub closed spec fn layout(self) -> BufferDescriptor {
        self.desc
    }

    /// A view of `data` laid out by `desc`; `None` when `data` is shorter
    /// than `desc.stride × desc.height` bytes.
    pub fn new(data: &'a [u8], desc: BufferDescriptor) -> (v: Option<BufferView<'a>>)
        ensures
            v is Some <==> data@.len() >= desc.stride * desc.height,
            v matches Some(view) ==> view.bytes() == data@ && view.layout() == desc,
    {
        assert(desc.stride * desc.height <= u32::MAX * u32::MAX) by (nonlinear_arith);
        if (data.len() as u64) >= desc.stride as u64 * desc.height as u64 {
            Some(BufferView { data, desc })
        } else {
            None
        }
    }

    pub fn descriptor(&self) -> (d: &BufferDescriptor)
        ensures
            *d == self.layout(),
    {
        &self.desc
    }

    pub fn width(&self) -> (w: u32)
        ensures
            w == self.layout().width,
    {
        self.desc.width
    }

    pub fn height(&self) -> (h: u32)
        ensures
            h == self.layout().height,
    {
        self.desc.height
    }

    pub fn stride(&self) -> (s: u32)
        ensures
            s == self.layout().stride,
    {
        self.desc.stride
    }

    pub fn format(&self) -> (f: PixelFormat)
        ensures
            f == self.layout().format,
    {
        self.desc.format
    }

    /// All the bytes viewed.
    pub fn data(&self) -> (d: &[u8])
        ensures
            d@ == self.bytes(),
            d@.len() >= self.layout().stride * self.layout().height,
    {
        proof {
            use_type_invariant(self);
        }
        self.data
    }

    /// The pixel bytes of row `y`, without the row's padding; `None` when
    /// `y` is not below the height.
    pub fn row(&self, y: u32) -> (r: Option<&[u8]>)
        requires
            y < self.layout().height ==> {
                &&& self.layout().row_bytes() <= u32::MAX
                &&& y * self.layout().stride + self.layout().row_bytes() <= self.bytes().len()
            },
        ensures
            r is Some <==> y < self.layout().height,
            r matches Some(s) ==> s@ == self.bytes().subrange(
                y * self.layout().stride,
                y * self.layout().stride + self.layout().row_bytes(),
            ),
    {
        proof {
            use_type_invariant(self);
        }
        let n = self.data.len();
        if y >= self.desc.height {
            return None;
        }
        let start = self.desc.row_offset(y);
        let len = self.desc.bytes_per_row() as usize;
        let (_, tail) = self.data.split_at(start);
        let (row, _) = tail.split_at(len);
        Some(row)
    }

    /// Byte offset of pixel `(x, y)`; `None` when it lies outside the buffer.
    pub fn pixel_offset(&self, x: u32, y: u32) -> (r: Option<usize>)
        requires
            x < self.layout().width && y < self.layout().height ==> self.layout().offset_of(
                x as int,
                y as int,
            ) <= usize::MAX,
        ensures
            r is Some <==> x < self.layout().width && y < self.layout().height,
            r matches Some(n) ==> n == self.layout().offset_of(x as int, y as int),
    {
        proof {
            use_type_invariant(self);
        }
        if x >= self.desc.width || y >= self.desc.height {
            return None;
        }
        Some(self.desc.pixel_offset(x, y))
    }
}

/// Write access to caller-owned pixel memory laid out by a descriptor.
///
/// The memory always holds at least `stride × height` bytes. Writes change
/// the memory only, never the descriptor.
#[derive(Debug)]
pub struct BufferViewMut<'a> {
    data: &'a mut [u8],
    desc: BufferDescriptor,
}

impl<'a> BufferViewMut<'a> {
    /// The memory holds at least `stride × height` bytes. Every view that
    /// `new` returns satisfies it.
    pub closed spec fn wf(self) -> bool {
        self.data@.len() >= self.desc.stride * self.desc.height
    }

    /// The bytes viewed.
    pub closed spec fn bytes(self) -> Seq<u8> {
        self.data@
    }

    /// The layout of the bytes.
    pub closed spec fn layout(self) -> BufferDescriptor {
        self.desc
    }

    /// A writable view of `data` laid out by `desc`; `None` when `data` is
    /// shorter than `desc.stride × desc.height` bytes.
    pub fn new(data: &'a mut [u8], desc: BufferDescriptor) -> (v: Option<BufferViewMut<'a>>)
        ensures
            v is Some <==> old(data)@.len() >= desc.stride * desc.height,
            v matches Some(view) ==> view.wf() && view.bytes() == old(data)@ && view.layout() == desc,
    {
        assert(desc.stride * desc.height <= u32::MAX * u32::MAX) by (nonlinear_arith);
        if (data.len() as u64) >= desc.stride as u64 * desc.height as u64 {
            Some(BufferViewMut { data, desc })
        } else {
            None
        }
    }

    pub fn descriptor(&self) -> (d: &BufferDescriptor)
        ensures
            *d == self.layout(),
    {
        &self.desc
    }

    pub fn width(&self) -> (w: u32)
        ensures
            w == self.layout().width,
    {
        self.desc.width
    }

    pub fn height(&self) -> (h: u32)
        ensures
            h == self.layout().height,
    {
        self.desc.height
    }

    pub fn stride(&self) -> (s: u32)
        ensures
            s == self.layout().stride,
    {
        self.desc.stride
    }

    pub fn format(&self) -> (f: PixelFormat)
        ensures
            f == self.layout().format,
    {
        self.desc.format
    }

    /// All the bytes viewed.
    pub fn data(&self) -> (d: &[u8])
        ensures
            d@ == self.bytes(),
    {
        self.data
    }

    /// The pixel bytes of row `y` for writing, without the row's padding;
    /// `None` when `y` is not below the height.
    pub fn row_mut(&mut self, y: u32) -> (r: Option<&mut [u8]>)
        requires
            y < old(self).layout().height ==> {
                &&& old(self).layout().row_bytes() <= u32::MAX
                &&& y * old(self).layout().stride + old(self).layout().row_bytes() <= old(
                    self,
                ).bytes().len()
            },
        ensures
            final(self).layout() == old(self).layout(),
            r is Some <==> y < old(self).layout().height,
            r is None ==> final(self).bytes() == old(self).bytes(),
            r matches Some(s) ==> {
                let start = y * old(self).layout().stride;
                let end = start + old(self).layout().row_bytes();
                &&& s@ == old(self).bytes().subrange(start, end)
                &&& final(self).bytes() == old(self).bytes().subrange(0, start) + final(s)@ + old(
                    self,
                ).bytes().subrange(end, old(self).bytes().len() as int)
            },
    {
        let n = self.data.len();
        if y >= self.desc.height {
            return None;
        }
        let start = self.desc.row_offset(y);
        let len = self.desc.bytes_per_row() as usize;
        let (_, tail) = self.data.split_at_mut(start);
        let (row, _) = tail.split_at_mut(len);
        Some(row)
    }

    /// All the bytes viewed, for writing.
    pub fn data_mut(&mut self) -> (d: &mut [u8])
        ensures
            d@ == old(self).bytes(),
            final(self).bytes() == final(d)@,
            final(self).layout() == old(self).layout(),
    {
        &mut *self.data
    }

    /// Sets every viewed byte, padding included, to `value`.
    pub fn fill(&mut self, value: u8)
        ensures
            old(self).wf() ==> final(self).wf(),
            final(self).layout() == old(self).layout(),
            final(self).bytes() == Seq::new(old(self).bytes().len(), |i: int| value),
    {
        let n = self.data.len();
        let mut i: usize = 0;
        while i < n
            invariant
                n == old(self).bytes().len(),
                self.data@.len() == n,
                self.desc == old(self).desc,
                0 <= i <= n,
                forall|j: int| 0 <= j < i ==> self.data@[j] == value,
            decreases n - i,
        {
            self.data[i] = value;
            i = i + 1;
        }
        assert(self.data@ =~= Seq::new(n as nat, |j: int| value));
    }

    /// Sets every viewed byte to zero.
    pub fn clear(&mut self)
        ensures
            old(self).wf() ==> final(self).wf(),
            final(self).layout() == old(self).layout(),
            final(self).bytes() == Seq::new(old(self).bytes().len(), |i: int| 0u8),
    {
        self.fill(0);
    }
}

} // verus!
