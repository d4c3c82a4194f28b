use critical_section as _;
use esp_panels::tdisplay::bus::{stage_command, Bus};
use esp_panels::tdisplay::controls::{Controls, PageEvent, ThemeEvent, ThemeUpdate};
use esp_panels::tdisplay::frame::{write_pixels, Chunk, FrameTransfer};
use esp_panels::tdisplay::st7789::{init_st7789, split_word, window_commands, InitStep};
use esp_panels::tdisplay::stats::{FrameReport, FrameStats};
use esp_panels::tdisplay::{DMA_BUFFER_LEN, LCD_H_RES, LCD_V_RES, PIXEL_COUNT};

const DARK: ThemeUpdate = ThemeUpdate { dark_mode: true, led_on: true, led_pin_low: true };
const LIGHT: ThemeUpdate = ThemeUpdate { dark_mode: false, led_on: false, led_pin_low: false };

#[test]
fn theme_changes_when_the_pin_goes_low() {
    let mut controls = Controls::new();
    assert!(!controls.dark_mode());
    assert_eq!(controls.poll_button(false), ThemeEvent::Armed);
    assert_eq!(controls.poll_button(false), ThemeEvent::Idle);
    assert_eq!(controls.poll_button(true), ThemeEvent::Toggled(DARK));
    assert_eq!(controls.poll_button(true), ThemeEvent::Idle);
    assert!(controls.dark_mode());
    assert_eq!(controls.poll_button(false), ThemeEvent::Armed);
    assert_eq!(controls.poll_button(true), ThemeEvent::Toggled(LIGHT));
    assert!(!controls.dark_mode());
}

#[test]
fn button_acts_only_after_its_pin_was_high() {
    let mut controls = Controls::new();
    assert_eq!(controls.poll_button(true), ThemeEvent::Idle);
    assert_eq!(controls.poll_button2(true), PageEvent::Idle);
    assert_eq!(controls, Controls::new());
}

#[test]
fn second_button_turns_the_page() {
    let mut controls = Controls::new();
    for page in [1, 2, 0, 1] {
        assert_eq!(controls.poll_button2(false), PageEvent::Armed);
        assert_eq!(controls.poll_button2(true), PageEvent::Turned(page));
        assert_eq!(controls.page(), page);
    }
    assert!(!controls.dark_mode());
}

#[test]
fn light_mirrors_theme() {
    let mut controls = Controls::new();
    let mut pin_low = false;
    for i in 0..50 {
        if let ThemeEvent::Toggled(theme) = controls.poll_button(i % 5 < 2) {
            pin_low = theme.led_pin_low;
            assert_eq!(theme.led_on, theme.dark_mode);
        }
        assert_eq!(pin_low, controls.dark_mode());
    }
}

#[test]
fn every_tenth_tick_is_shown() {
    let mut controls = Controls::new();
    let mut shown = Vec::new();
    for _ in 0..35 {
        if let Some(tick) = controls.advance_tick() {
            shown.push(tick);
        }
    }
    assert_eq!(shown, vec![10, 20, 30]);
}

#[test]
fn bus_lends_and_takes_back() {
    let mut bus = Bus::new("peripheral", vec![1u8]);
    let len = bus.use_resources(|peripheral, mut buffer| {
        buffer.push(2);
        (buffer.len(), peripheral, buffer)
    });
    assert_eq!(len, 2);
    assert_eq!(bus.resources, Some(("peripheral", vec![1, 2])));
}

#[test]
fn command_is_staged_at_the_front() {
    let mut buffer = [9u8; 6];
    assert_eq!(stage_command(&mut buffer, &[1, 2, 3]), 3);
    assert_eq!(buffer, [1, 2, 3, 9, 9, 9]);
    assert_eq!(stage_command(&mut buffer, &[]), 0);
    assert_eq!(buffer, [1, 2, 3, 9, 9, 9]);
    assert_eq!(stage_command(&mut buffer, &[4; 6]), 6);
    assert_eq!(buffer, [4; 6]);
}

#[test]
fn start_up_sequence_is_that_of_the_panel() {
    let expected: Vec<(Option<u8>, Vec<u8>)> = vec![
        (Some(0x11), vec![]),
        (None, vec![120]),
        (Some(0x3A), vec![0x05]),
        (Some(0xB2), vec![0x0B, 0x0B, 0x00, 0x33, 0x33]),
        (Some(0xB7), vec![0x75]),
        (Some(0xBB), vec![0x28]),
        (Some(0xC0), vec![0x2C]),
        (Some(0xC2), vec![0x01]),
        (Some(0xC3), vec![0x1F]),
        (Some(0xC6), vec![0x13]),
        (Some(0xD0), vec![0xA7]),
        (Some(0xD0), vec![0xA4, 0xA1]),
        (Some(0xD6), vec![0xA1]),
        (
            Some(0xE0),
            vec![
                0xF0, 0x05, 0x0A, 0x06, 0x06, 0x03, 0x2B, 0x32, 0x43, 0x36, 0x11, 0x10, 0x2B, 0x32,
            ],
        ),
        (
            Some(0xE1),
            vec![
                0xF0, 0x08, 0x0C, 0x0B, 0x09, 0x24, 0x2B, 0x22, 0x43, 0x38, 0x15, 0x16, 0x2F, 0x37,
            ],
        ),
        (Some(0x21), vec![]),
        (Some(0x13), vec![]),
        (Some(0x36), vec![0x60]),
        (Some(0x29), vec![]),
        (None, vec![120]),
    ];
    let steps = init_st7789();
    assert_eq!(steps.len(), expected.len());
    for (step, (cmd, bytes)) in steps.into_iter().zip(expected) {
        match cmd {
            Some(cmd) => assert_eq!(step, InitStep::Send { cmd, data: bytes }),
            None => assert_eq!(step, InitStep::Delay { millis: bytes[0] as u32 }),
        }
    }
}

#[test]
fn window_covers_the_panel() {
    let (columns, rows) = window_commands();
    assert_eq!((columns.cmd, columns.data), (0x2A, [0, 0, 1, 63]));
    assert_eq!((rows.cmd, rows.data), (0x2B, [0, 35, 0, 204]));
    assert_eq!(320 * (204 - 35 + 1), PIXEL_COUNT);
    assert_eq!(LCD_H_RES as usize * LCD_V_RES as usize, PIXEL_COUNT);
}

#[test]
fn words_split_into_high_and_low() {
    assert_eq!(split_word(0x013F), (0x01, 0x3F));
    assert_eq!(split_word(0), (0, 0));
    assert_eq!(split_word(0xFF00), (0xFF, 0));
}

#[test]
fn pixels_are_written_low_byte_first() {
    let mut buffer = [0xEEu8; 5];
    write_pixels(&[0x1111, 0x1234, 0xABCD], 1, 2, &mut buffer);
    assert_eq!(buffer, [0x34, 0x12, 0xCD, 0xAB, 0xEE]);
}

fn bytes_of(pixels: &[u16]) -> Vec<u8> {
    pixels.iter().flat_map(|pixel| pixel.to_le_bytes()).collect()
}

fn transfer_all(pixels: &[u16], count: usize, capacity: usize) -> (Vec<Chunk>, Vec<u8>) {
    let mut buffer = vec![0xEEu8; capacity];
    let mut transfer = FrameTransfer::new(count);
    let mut chunks = Vec::new();
    let mut sent = Vec::new();
    while let Some(chunk) = transfer.next_chunk(pixels, &mut buffer) {
        sent.extend_from_slice(&buffer[..chunk.len]);
        chunks.push(chunk);
    }
    assert_eq!(transfer.next_chunk(pixels, &mut buffer), None);
    (chunks, sent)
}

#[test]
fn whole_frame_goes_out_in_four_transfers() {
    let pixels: Vec<u16> = (0..PIXEL_COUNT).map(|i| (i * 7) as u16).collect();
    let (chunks, sent) = transfer_all(&pixels, PIXEL_COUNT, DMA_BUFFER_LEN);
    assert_eq!(
        chunks,
        vec![
            Chunk { command: 0x2C, len: 32_000 },
            Chunk { command: 0x3C, len: 32_000 },
            Chunk { command: 0x3C, len: 32_000 },
            Chunk { command: 0x3C, len: 12_800 },
        ]
    );
    assert_eq!(sent, bytes_of(&pixels));
}

#[test]
fn frame_arrives_whole_for_every_even_capacity() {
    let pixels: Vec<u16> = (0..37u16).map(|i| i * 1771).collect();
    for capacity in (2..100).step_by(2) {
        for count in 0..=37usize {
            let (chunks, sent) = transfer_all(&pixels, count, capacity);
            assert_eq!(sent, bytes_of(&pixels[..count]));
            assert_eq!(chunks.len(), std::cmp::max(1, (2 * count + capacity - 1) / capacity));
            assert_eq!(chunks[0].command, 0x2C);
            assert!(chunks[1..].iter().all(|chunk| chunk.command == 0x3C));
            assert!(chunks.iter().all(|chunk| chunk.len <= capacity));
        }
    }
}

#[test]
fn empty_frame_is_one_empty_transfer() {
    let mut transfer = FrameTransfer::new(0);
    let mut buffer = [];
    assert_eq!(transfer.next_chunk(&[], &mut buffer), Some(Chunk { command: 0x2C, len: 0 }));
    assert_eq!(transfer.next_chunk(&[], &mut buffer), None);
}

#[test]
fn odd_capacity_sends_a_stale_byte() {
    let (chunks, sent) = transfer_all(&[0x0201, 0x0403, 0x0605], 3, 3);
    assert_eq!(
        chunks,
        vec![Chunk { command: 0x2C, len: 3 }, Chunk { command: 0x3C, len: 3 }]
    );
    assert_eq!(sent, vec![0x01, 0x02, 0xEE, 0x03, 0x04, 0xEE]);
}

#[test]
fn report_is_due_every_thirty_frames() {
    let mut stats = FrameStats::new(1_000);
    let mut due = Vec::new();
    for frame in 1..=90u32 {
        if stats.frame_sent() {
            due.push(frame);
        }
    }
    assert_eq!(due, vec![30, 60, 90]);
    assert_eq!(stats.last_report, 1_000);
    let mut last = FrameStats { frame_counter: u32::MAX, last_report: 0 };
    assert!(last.frame_sent());
    assert_eq!(last.frame_counter, 0);
}

#[test]
fn report_gives_frames_per_second() {
    let mut stats = FrameStats { frame_counter: 30, last_report: 1_000 };
    assert_eq!(stats.report(1_501_000), FrameReport { frame: 30, fps: 20 });
    assert_eq!(stats.last_report, 1_501_000);
    assert_eq!(stats.report(1_501_999).fps, 0);
    assert_eq!(stats.report(1_508_999).fps, 4_285);
    assert_eq!(stats.report(101_508_999).fps, 0);
}
