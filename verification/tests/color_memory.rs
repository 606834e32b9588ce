use canvadot_notifications::color_memory::ColorMemory;
use canvadot_notifications::notification::Rgb;

fn rgb(red: u8, green: u8, blue: u8) -> Rgb {
    Rgb { red, green, blue }
}

#[test]
fn pushing_a_new_color_puts_it_in_front() {
    let mut memory = ColorMemory::new("colors".to_string(), 4);
    assert_eq!(memory.ls_key(), "colors");
    memory.push(rgb(1, 2, 3));
    memory.push(rgb(4, 5, 6));

    assert_eq!(memory.len(), 2);
    assert_eq!(memory.get(0), Some(&rgb(4, 5, 6)));
    assert_eq!(memory.get(1), Some(&rgb(1, 2, 3)));
    assert_eq!(memory.get(2), None);
}

#[test]
fn pushing_a_known_color_changes_nothing() {
    let mut memory = ColorMemory::new("colors".to_string(), 4);
    memory.push(rgb(1, 2, 3));
    memory.push(rgb(4, 5, 6));
    memory.push(rgb(1, 2, 3));

    assert_eq!(memory.len(), 2);
    // The repeated color is not moved to the front.
    assert_eq!(memory.get(0), Some(&rgb(4, 5, 6)));
    assert_eq!(memory.get(1), Some(&rgb(1, 2, 3)));
}

#[test]
fn the_oldest_color_falls_out_at_the_bound() {
    let mut memory = ColorMemory::new("colors".to_string(), 2);
    memory.push(rgb(1, 1, 1));
    memory.push(rgb(2, 2, 2));
    memory.push(rgb(3, 3, 3));

    assert_eq!(memory.len(), 2);
    assert_eq!(memory.get(0), Some(&rgb(3, 3, 3)));
    assert_eq!(memory.get(1), Some(&rgb(2, 2, 2)));
}

#[test]
fn seeding_truncates_to_the_bound() {
    let seeded = ColorMemory::from_colors(
        "colors".to_string(),
        2,
        vec![rgb(1, 1, 1), rgb(2, 2, 2), rgb(3, 3, 3)],
    );
    assert_eq!(seeded.len(), 2);
    assert_eq!(seeded.colors().as_slice(), &[rgb(1, 1, 1), rgb(2, 2, 2)]);
}
