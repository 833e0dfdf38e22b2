use nogasm::gpio::{GpioInput, Watched};
use nogasm::switch::DebouncedSwitch;
use std::cell::Cell;
use std::rc::Rc;

struct Button {
    low: Rc<Cell<bool>>,
    reads: Rc<Cell<u32>>,
}

impl GpioInput for Button {
    fn is_high(&self) -> bool {
        self.reads.set(self.reads.get() + 1);
        !self.low.get()
    }

    fn is_low(&self) -> bool {
        self.reads.set(self.reads.get() + 1);
        self.low.get()
    }
}

fn switch(debounce_us: u64) -> (DebouncedSwitch<Button>, Rc<Cell<bool>>, Rc<Cell<u32>>) {
    let low = Rc::new(Cell::new(false));
    let reads = Rc::new(Cell::new(0));
    let button = Button { low: low.clone(), reads: reads.clone() };
    (DebouncedSwitch::new(button, debounce_us), low, reads)
}

#[test]
fn released_switch_does_not_click() {
    let (mut sw, _low, _reads) = switch(500);
    assert!(!sw.clicked(1));
    assert!(!sw.clicked(1_000));
}

#[test]
fn press_clicks_once() {
    let (mut sw, low, _reads) = switch(500);
    low.set(true);
    assert!(sw.clicked(10));
    assert!(!sw.clicked(11));
    assert!(!sw.clicked(600));
    assert!(!sw.clicked(10_000));
}

#[test]
fn release_does_not_click_but_lets_the_next_press_count() {
    let (mut sw, low, _reads) = switch(500);
    low.set(true);
    assert!(sw.clicked(10));
    low.set(false);
    assert!(!sw.clicked(600));
    low.set(true);
    assert!(sw.clicked(1_200));
}

#[test]
fn changes_during_the_debounce_time_are_ignored() {
    let (mut sw, low, reads) = switch(500);
    low.set(true);
    assert!(sw.clicked(10));
    let seen = reads.get();
    low.set(false);
    assert!(!sw.clicked(100));
    assert!(!sw.clicked(510));
    assert_eq!(reads.get(), seen);
    low.set(true);
    assert!(!sw.clicked(511));
    low.set(false);
    assert!(!sw.clicked(512));
    low.set(true);
    assert!(!sw.clicked(1_012));
    assert!(sw.clicked(1_013));
}

#[test]
fn nothing_counts_at_time_zero() {
    let (mut sw, low, reads) = switch(500);
    low.set(true);
    assert!(!sw.clicked(0));
    assert_eq!(reads.get(), 0);
    assert!(sw.clicked(1));
}

#[test]
fn register_takes_the_level_as_an_argument() {
    let (mut sw, _low, reads) = switch(100);
    assert!(!sw.register(5, false));
    assert!(sw.register(5, true));
    assert!(!sw.register(105, false));
    assert!(!sw.register(106, true));
    assert!(!sw.register(106, false));
    assert!(sw.register(207, true));
    assert_eq!(reads.get(), 0);
}

#[test]
fn watched_line_hands_the_answer_on() {
    let low = Rc::new(Cell::new(false));
    let reads = Rc::new(Cell::new(0));
    let mut line = Watched::new(Button { low: low.clone(), reads: reads.clone() });
    assert!(!line.is_low());
    low.set(true);
    assert!(line.is_low());
    assert!(line.is_low());
    assert_eq!(reads.get(), 3);
}
