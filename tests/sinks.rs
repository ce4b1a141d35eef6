use sadnes::sink::{AudioSink, PixelBuffer, Rgb565VideoSink, VideoSink, Xrgb1555VideoSink, Xrgb8888VideoSink};

#[test]
fn audio_sink_appends_then_drops_when_full() {
    let mut storage = vec![(0i16, 0i16); 2];
    let mut sink = AudioSink::new(&mut storage);
    sink.append((1, -1));
    sink.append((2, -2));
    sink.append((3, -3));
    assert_eq!(sink.buffer_pos, 2);
    assert_eq!(storage, vec![(1, -1), (2, -2)]);
}

#[test]
fn pixel_buffer_pitch() {
    let mut narrow = vec![0u16; 4];
    let mut wide = vec![0u32; 4];
    assert_eq!(PixelBuffer::Xrgb1555(&mut narrow, 8).pitch(), 8);
    assert_eq!(PixelBuffer::Rgb565(&mut narrow, 6).pitch(), 6);
    assert_eq!(PixelBuffer::Xrgb8888(&mut wide, 16).pitch(), 16);
}

#[test]
fn rgb565_sink_converts_palette_indices() {
    let mut storage = vec![0xFFFFu16; 4];
    {
        let mut sink = Rgb565VideoSink::new(&mut storage);
        assert!(!sink.is_populated());
        sink.append(&[0x00, 0x02, 0x0D]);
        assert!(sink.is_populated());
        assert_eq!(sink.pixel_size(), 2);
    }
    assert_eq!(storage, vec![0x632C, 0x1094, 0x0000, 0xFFFF]);
}

#[test]
fn xrgb1555_sink_converts_palette_indices() {
    let mut storage = vec![0u16; 2];
    {
        let mut sink = Xrgb1555VideoSink::new(&mut storage);
        sink.append(&[0x00, 0x02]);
        assert_eq!(sink.pixel_size(), 2);
    }
    assert_eq!(storage, vec![0x318C, 0x0854]);
}

#[test]
fn xrgb8888_sink_converts_palette_indices() {
    let mut storage = vec![0u32; 3];
    {
        let mut sink = Xrgb8888VideoSink::new(&mut storage);
        sink.append(&[0x00, 0x20, 0x3F]);
        assert!(sink.is_populated());
        assert_eq!(sink.pixel_size(), 4);
    }
    assert_eq!(storage, vec![0x666666, 0xFFFEFF, 0x000000]);
}
