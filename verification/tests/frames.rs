//! Tests for frame processing (decode and crop) and the single-slot frame
//! mailbox.

use image::{ImageFormat, Rgba, RgbaImage};
use std::io::Cursor;
use std::sync::{Arc, Mutex};
use zoetrope_core::frame::{crop_rgba, process_frame, CaptureError, DisplayFrame};
use zoetrope_core::mailbox::FrameBuffer;

fn square_frame(side: u32, fill: u8) -> DisplayFrame {
    DisplayFrame { width: side, height: side, data: vec![fill; (4 * side * side) as usize] }
}

#[test]
fn crop_takes_the_fixed_offset_square() {
    // A 4x2 RGBA image whose every byte is distinct.
    let src_w: u32 = 4;
    let src_h: u32 = 2;
    let mut data: Vec<u8> = Vec::new();
    for i in 0..(4 * src_w * src_h) as u8 {
        data.push(i);
    }
    let out = crop_rgba(&data, src_w, src_h, 1, 0, 2);
    assert_eq!(out.len(), 16);
    for y in 0..2u32 {
        for x in 0..2u32 {
            for c in 0..4u32 {
                let got = out[(4 * (y * 2 + x) + c) as usize];
                let want = data[(4 * (y * src_w + (x + 1)) + c) as usize];
                assert_eq!(got, want);
            }
        }
    }
}

#[test]
fn process_frame_decodes_and_crops() {
    let mut img = RgbaImage::new(4, 4);
    for y in 0..4u32 {
        for x in 0..4u32 {
            let v = (16 * y + 4 * x) as u8;
            img.put_pixel(x, y, Rgba([v, v + 1, v + 2, 255]));
        }
    }
    let mut encoded: Vec<u8> = Vec::new();
    img.write_to(&mut Cursor::new(&mut encoded), ImageFormat::Png).unwrap();

    let frame = process_frame(&encoded, 4, 4, 1, 1, 2).unwrap();
    assert_eq!(frame.width, 2);
    assert_eq!(frame.height, 2);
    assert_eq!(frame.data.len(), 16);
    for y in 0..2u32 {
        for x in 0..2u32 {
            let px = img.get_pixel(x + 1, y + 1);
            for c in 0..4u32 {
                assert_eq!(frame.data[(4 * (y * 2 + x) + c) as usize], px.0[c as usize]);
            }
        }
    }
}

#[test]
fn process_frame_rejects_garbage() {
    let garbage: Vec<u8> = vec![0, 1, 2, 3, 4, 5, 6, 7];
    assert_eq!(process_frame(&garbage, 4, 4, 1, 1, 2), Err(CaptureError::FrameDecode));
}

#[test]
fn process_frame_rejects_unexpected_dimensions() {
    let img = RgbaImage::new(3, 3);
    let mut encoded: Vec<u8> = Vec::new();
    img.write_to(&mut Cursor::new(&mut encoded), ImageFormat::Png).unwrap();
    // The session expects 4x4 raw frames; a 3x3 frame is dropped.
    assert_eq!(process_frame(&encoded, 4, 4, 1, 1, 2), Err(CaptureError::FrameDecode));
}

#[test]
fn mailbox_empty_until_published() {
    let mut buf = FrameBuffer::new(2, 2);
    assert!(buf.take_latest().is_none());
    buf.publish(square_frame(2, 9));
    let got = buf.take_latest().unwrap();
    assert_eq!(got.width, 2);
    assert_eq!(got.height, 2);
    assert_eq!(got.data, vec![9u8; 16]);
    assert!(buf.take_latest().is_none(), "a taken frame is gone");
}

#[test]
fn mailbox_newest_wins() {
    let mut buf = FrameBuffer::new(2, 2);
    buf.publish(square_frame(2, 1));
    buf.publish(square_frame(2, 2));
    buf.publish(square_frame(2, 3));
    let got = buf.take_latest().unwrap();
    assert_eq!(got.data, vec![3u8; 16], "only the most recent frame survives");
    assert_eq!(got.data.len(), 16, "the frame is complete, never partial");
    assert!(buf.take_latest().is_none());
}

#[test]
fn interleaved_overwrites_never_yield_torn_frames() {
    // A producer overwrites the slot with frames whose bytes all carry one
    // value; however the takes interleave with the publishes, the reader
    // only ever sees whole frames: full length, uniform bytes.
    let buf = Arc::new(Mutex::new(FrameBuffer::new(8, 8)));
    for round in 0..200u32 {
        for burst in 0..(round % 4) {
            let fill = ((round + burst) % 251) as u8;
            buf.lock().unwrap().publish(square_frame(8, fill));
        }
        if let Some(f) = buf.lock().unwrap().take_latest() {
            assert_eq!(f.data.len(), 4 * 8 * 8, "complete frame");
            let first = f.data[0];
            assert!(f.data.iter().all(|b| *b == first), "never torn");
        }
    }
}

#[test]
fn scenario_camera_at_half_tick_rate() {
    // Frames arrive at 30/s while ticks occur at 60/s: every other tick sees
    // a new frame, the rest see none, and the take never waits.
    let mut buf = FrameBuffer::new(2, 2);
    let mut fresh = 0;
    let mut dry = 0;
    for tick in 0..20u8 {
        if tick % 2 == 0 {
            buf.publish(square_frame(2, tick));
        }
        match buf.take_latest() {
            Some(f) => {
                assert_eq!(f.data, vec![tick; 16]);
                fresh += 1;
            }
            None => dry += 1,
        }
    }
    assert_eq!(fresh, 10);
    assert_eq!(dry, 10);
}
