//! Capability markers for types that may be used on the real-time path.
//!
//! The traits carry no behaviour. Implementing one records that the type
//! was checked to meet the property; a generic function can then demand it
//! through a bound.
use vstd::prelude::*;

use crate::types::{AudioFormat, BitDepth, BufferSize, ChannelCount, ChannelLayout, FrameCount, SampleRate};

verus! {

/// Safe to use on a real-time audio thread: no allocation, no blocking,
/// bounded running time.
pub trait RealtimeSafe: Send + 'static {}

/// Creating and using a value of the type does not allocate on the heap.
pub trait HeapFree {}

/// No operation of the type blocks.
pub trait NonBlocking {}

impl RealtimeSafe for i8 {}
impl RealtimeSafe for i16 {}
impl RealtimeSafe for i32 {}
impl RealtimeSafe for i64 {}
impl RealtimeSafe for u8 {}
impl RealtimeSafe for u16 {}
impl RealtimeSafe for u32 {}
impl RealtimeSafe for u64 {}
impl RealtimeSafe for bool {}
impl RealtimeSafe for () {}

impl HeapFree for i8 {}
impl HeapFree for i16 {}
impl HeapFree for i32 {}
impl HeapFree for i64 {}
impl HeapFree for u8 {}
impl HeapFree for u16 {}
impl HeapFree for u32 {}
impl HeapFree for u64 {}
impl HeapFree for bool {}
impl HeapFree for () {}

impl NonBlocking for i8 {}
impl NonBlocking for i16 {}
impl NonBlocking for i32 {}
impl NonBlocking for i64 {}
impl NonBlocking for u8 {}
impl NonBlocking for u16 {}
impl NonBlocking for u32 {}
impl NonBlocking for u64 {}
impl NonBlocking for bool {}
impl NonBlocking for () {}

impl<T: RealtimeSafe, const N: usize> RealtimeSafe for [T; N] {}
impl<T: HeapFree, const N: usize> HeapFree for [T; N] {}
impl<T: NonBlocking, const N: usize> NonBlocking for [T; N] {}

impl<A: RealtimeSafe, B: RealtimeSafe> RealtimeSafe for (A, B) {}
impl<A: HeapFree, B: HeapFree> HeapFree for (A, B) {}
impl<A: NonBlocking, B: NonBlocking> NonBlocking for (A, B) {}

impl<A: RealtimeSafe, B: RealtimeSafe, C: RealtimeSafe> RealtimeSafe for (A, B, C) {}
impl<A: HeapFree, B: HeapFree, C: HeapFree> HeapFree for (A, B, C) {}
impl<A: NonBlocking, B: NonBlocking, C: NonBlocking> NonBlocking for (A, B, C) {}

impl<T: RealtimeSafe> RealtimeSafe for Option<T> {}
impl<T: HeapFree> HeapFree for Option<T> {}
impl<T: NonBlocking> NonBlocking for Option<T> {}

impl<T: RealtimeSafe, E: RealtimeSafe> RealtimeSafe for Result<T, E> {}
impl<T: HeapFree, E: HeapFree> HeapFree for Result<T, E> {}
impl<T: NonBlocking, E: NonBlocking> NonBlocking for Result<T, E> {}

impl RealtimeSafe for SampleRate {}
impl RealtimeSafe for ChannelCount {}
impl RealtimeSafe for ChannelLayout {}
impl RealtimeSafe for BufferSize {}
impl RealtimeSafe for FrameCount {}
impl RealtimeSafe for BitDepth {}
impl RealtimeSafe for AudioFormat {}

impl HeapFree for SampleRate {}
impl HeapFree for ChannelCount {}
impl HeapFree for ChannelLayout {}
impl HeapFree for BufferSize {}
impl HeapFree for FrameCount {}
impl HeapFree for BitDepth {}
impl HeapFree for AudioFormat {}

impl NonBlocking for SampleRate {}
impl NonBlocking for ChannelCount {}
impl NonBlocking for ChannelLayout {}
impl NonBlocking for BufferSize {}
impl NonBlocking for FrameCount {}
impl NonBlocking for BitDepth {}
impl NonBlocking for AudioFormat {}

/// Compiles only when `T` is marked real-time safe; does nothing at run time.
pub fn assert_realtime_safe<T: RealtimeSafe>() {
}

/// Compiles only when `T` is marked heap free; does nothing at run time.
pub fn assert_heap_free<T: HeapFree>() {
}

/// Compiles only when `T` is marked non-blocking; does nothing at run time.
pub fn assert_non_blocking<T: NonBlocking>() {
}

} // verus!
