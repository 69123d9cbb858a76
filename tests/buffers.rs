use rt_audio_engine::buffer::{AudioBuffer, RealtimeBuffer, RingBuffer};
use rt_audio_engine::error::AudioEngineError;
use rt_audio_engine::types::ChannelCount;

#[test]
fn realtime_new_is_empty_with_capacity() {
    let b: RealtimeBuffer<i32> = RealtimeBuffer::new(8);
    assert_eq!(b.capacity(), 8);
    assert_eq!(b.len(), 0);
    assert!(b.is_empty());
    assert!(!b.is_full());
    assert_eq!(b.remaining(), 8);
    assert_eq!(b.as_full_slice(), &[0; 8]);
}

#[test]
fn realtime_with_value_is_full() {
    let b = RealtimeBuffer::with_value(3, 7u8);
    assert_eq!(b.len(), 3);
    assert!(b.is_full());
    assert_eq!(b.as_slice(), &[7, 7, 7]);
}

#[test]
fn realtime_resize_clamps_to_capacity() {
    let mut b: RealtimeBuffer<i32> = RealtimeBuffer::new(4);
    b.resize(10);
    assert_eq!(b.as_slice().len(), 4);
    b.resize(0);
    assert_eq!(b.as_slice().len(), 0);
    b.resize(2);
    assert_eq!(b.as_slice().len(), 2);
}

#[test]
fn realtime_resize_grow_fills_default() {
    let mut b = RealtimeBuffer::with_value(4, 9i32);
    b.resize(1);
    assert_eq!(b.as_slice(), &[9]);
    b.resize(3);
    assert_eq!(b.as_slice(), &[9, 0, 0]);
}

#[test]
fn realtime_copy_from_slice() {
    let mut b: RealtimeBuffer<i32> = RealtimeBuffer::new(4);
    assert!(b.copy_from_slice(&[1, 2, 3]).is_ok());
    assert_eq!(b.as_slice(), &[1, 2, 3]);
    assert_eq!(b.get(2), Some(&3));
    assert_eq!(b.get(3), None);
}

#[test]
fn realtime_copy_from_slice_overflow() {
    let mut b: RealtimeBuffer<i32> = RealtimeBuffer::new(2);
    let err = b.copy_from_slice(&[1, 2, 3]).unwrap_err();
    assert_eq!(err, AudioEngineError::BufferOverflow { attempted: 3, capacity: 2 });
    assert_eq!(b.len(), 0);
}

#[test]
fn realtime_fill_and_clear() {
    let mut b: RealtimeBuffer<i32> = RealtimeBuffer::new(3);
    b.fill(5);
    assert_eq!(b.as_slice(), &[5, 5, 5]);
    b.clear();
    assert!(b.is_empty());
    assert_eq!(b.as_full_slice(), &[5, 5, 5]);
    b.fill_default();
    assert_eq!(b.as_slice(), &[0, 0, 0]);
}

#[test]
fn realtime_set_len_and_get_mut() {
    let mut b = RealtimeBuffer::from_boxed_slice(vec![1, 2, 3].into_boxed_slice());
    assert_eq!(b.len(), 3);
    b.set_len(2);
    assert_eq!(b.as_slice(), &[1, 2]);
    if let Some(x) = b.get_mut(1) {
        *x = 20;
    }
    assert_eq!(b.as_slice(), &[1, 20]);
    assert!(b.get_mut(2).is_none());
    assert_eq!(b.iter().copied().sum::<i32>(), 21);
}

#[test]
fn audio_buffer_get_sample_out_of_range() {
    let b: AudioBuffer<f32> = AudioBuffer::new(4, ChannelCount::Stereo);
    assert_eq!(b.get_sample(4, 0), None);
    assert_eq!(b.get_sample(0, 2), None);
    assert_eq!(b.get_sample(3, 1), Some(0.0));
    assert_eq!(b.sample_count(), 8);
}

#[test]
fn audio_buffer_zero_frames() {
    let b: AudioBuffer<f32> = AudioBuffer::new(0, ChannelCount::Mono);
    assert_eq!(b.get_sample(0, 0), None);
    assert_eq!(b.sample_count(), 0);
    assert!(b.frame(0).is_none());
}

#[test]
fn audio_buffer_set_and_frame() {
    let mut b: AudioBuffer<f32> = AudioBuffer::new(3, ChannelCount::Stereo);
    b.set_sample(1, 1, 0.5);
    b.set_sample(1, 0, -0.25);
    b.set_sample(5, 0, 1.0);
    assert_eq!(b.get_sample(1, 1), Some(0.5));
    assert_eq!(b.frame(1), Some(&[-0.25f32, 0.5][..]));
    assert_eq!(b.samples(), &[0.0, 0.0, -0.25, 0.5, 0.0, 0.0]);
    b.silence();
    assert_eq!(b.samples(), &[0.0; 6]);
    assert_eq!(b.frames(), 3);
    assert_eq!(b.channels(), ChannelCount::Stereo);
}

#[test]
fn ring_push_pop_fifo() {
    let (mut w, mut r) = RingBuffer::<u32>::new(3);
    assert!(w.push(1).is_ok());
    assert!(w.push(2).is_ok());
    assert!(w.push(3).is_ok());
    assert_eq!(w.push(4), Err(AudioEngineError::RingBufferFull { count: 1 }));
    assert!(w.is_full());
    assert_eq!(r.peek(), Some(&1));
    assert_eq!(r.pop(), Ok(1));
    assert!(w.push(4).is_ok());
    assert_eq!(r.pop(), Ok(2));
    assert_eq!(r.pop(), Ok(3));
    assert_eq!(r.pop(), Ok(4));
    assert_eq!(r.pop(), Err(AudioEngineError::RingBufferEmpty { count: 1 }));
    assert!(r.is_empty());
}

#[test]
fn ring_interleaved_never_exceeds_capacity() {
    let (mut w, mut r) = RingBuffer::<u32>::new(4);
    let mut next = 0u32;
    let mut expected = 0u32;
    for round in 0..20u32 {
        for _ in 0..(round % 6) {
            if w.push(next).is_ok() {
                next += 1;
            }
        }
        assert!(next - expected <= 4);
        assert_eq!(r.slots(), (next - expected) as usize);
        for _ in 0..(round % 3) {
            if let Ok(v) = r.pop() {
                assert_eq!(v, expected);
                expected += 1;
            }
        }
        assert!(expected <= next);
    }
}

#[test]
fn ring_slices_end_to_end() {
    let (mut w, mut r) = RingBuffer::<f32>::new(48);
    let silence = [0.0f32; 40];
    assert_eq!(w.push_slice(&silence), 40);
    assert_eq!(w.slots(), 8);
    let mut dest = [1.0f32; 40];
    assert_eq!(r.pop_slice(&mut dest), 40);
    assert!(dest.iter().all(|s| *s == 0.0));
}

#[test]
fn ring_partial_slices() {
    let (mut w, mut r) = RingBuffer::<i32>::new(4);
    assert_eq!(w.push_slice(&[1, 2, 3, 4, 5, 6]), 4);
    let mut dest = [0i32; 6];
    assert_eq!(r.pop_slice(&mut dest), 4);
    assert_eq!(dest, [1, 2, 3, 4, 0, 0]);
    assert_eq!(w.push_slice(&[7, 8, 9]), 3);
    assert_eq!(r.discard(2), 2);
    assert_eq!(r.pop(), Ok(9));
    assert_eq!(r.discard(5), 0);
}

#[test]
fn ring_dropped_writer_reads_empty() {
    let (mut w, mut r) = RingBuffer::<i32>::new(2);
    assert!(w.push(5).is_ok());
    drop(w);
    assert_eq!(r.pop(), Ok(5));
    assert_eq!(r.pop(), Err(AudioEngineError::RingBufferEmpty { count: 1 }));
    let mut dest = [0i32; 2];
    assert_eq!(r.pop_slice(&mut dest), 0);
}

#[test]
fn realtime_mutable_views() {
    let mut b = RealtimeBuffer::from_boxed_slice(vec![1, 2, 3, 4].into_boxed_slice());
    b.set_len(2);
    b.as_mut_slice()[1] = 20;
    assert_eq!(b.as_slice(), &[1, 20]);
    b.as_full_mut_slice()[3] = 40;
    assert_eq!(b.as_full_slice(), &[1, 20, 3, 40]);
    for x in b.iter_mut() {
        *x += 1;
    }
    assert_eq!(b.as_full_slice(), &[2, 21, 3, 40]);
    assert_eq!(b.len(), 2);
}

#[test]
fn audio_buffer_mutable_frames() {
    let mut b: AudioBuffer<f32> = AudioBuffer::new(3, ChannelCount::Stereo);
    if let Some(frame) = b.frame_mut(2) {
        frame[0] = 0.5;
        frame[1] = -0.5;
    }
    assert!(b.frame_mut(3).is_none());
    assert_eq!(b.get_sample(2, 0), Some(0.5));
    assert_eq!(b.get_sample(2, 1), Some(-0.5));
    b.samples_mut()[0] = 0.25;
    assert_eq!(b.samples(), &[0.25, 0.0, 0.0, 0.0, 0.5, -0.5]);
}
