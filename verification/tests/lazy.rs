// Records that are built on first use and kept from then on.
use core::sync::atomic::AtomicUsize;
use core::sync::atomic::Ordering;
use enumeraties::EnumProp;
use lazy_static::lazy::Lazy;

struct LazyProps {
    description: String,
}

enum Shape {
    Triangle,
    Square,
    Hexagon,
}

static TRIANGLE_RUNS: AtomicUsize = AtomicUsize::new(0);

static SQUARE_RUNS: AtomicUsize = AtomicUsize::new(0);

static TRIANGLE: Lazy<LazyProps> = Lazy::INIT;

static SQUARE: Lazy<LazyProps> = Lazy::INIT;

static HEXAGON: Lazy<LazyProps> = Lazy::INIT;

fn triangle_props() -> LazyProps {
    TRIANGLE_RUNS.fetch_add(1, Ordering::SeqCst);
    LazyProps { description: [1, 2, 3].iter().map(ToString::to_string).collect() }
}

fn square_props() -> LazyProps {
    SQUARE_RUNS.fetch_add(1, Ordering::SeqCst);
    LazyProps { description: String::new() }
}

fn hexagon_props() -> LazyProps {
    let mut buf = String::new();
    buf.push_str("stuff");
    LazyProps { description: buf }
}

impl EnumProp<LazyProps> for Shape {
    fn property(&self) -> &'static LazyProps {
        match self {
            Self::Triangle => TRIANGLE.get(triangle_props),
            Self::Square => SQUARE.get(square_props),
            Self::Hexagon => HEXAGON.get(hexagon_props),
        }
    }
}

#[test]
fn lazy_record_is_built_once() {
    assert_eq!(TRIANGLE_RUNS.load(Ordering::SeqCst), 0);
    let first = Shape::Triangle.property();
    let second = Shape::Triangle.property();
    assert_eq!(first.description, "123");
    assert_eq!(first.description, second.description);
    assert!(core::ptr::eq(first, second));
    assert_eq!(TRIANGLE_RUNS.load(Ordering::SeqCst), 1);
    let third = Shape::Triangle.property();
    assert_eq!(third.description, "123");
    assert_eq!(TRIANGLE_RUNS.load(Ordering::SeqCst), 1);
}

#[test]
fn lazy_record_is_not_built_before_its_first_lookup() {
    assert_eq!(SQUARE_RUNS.load(Ordering::SeqCst), 0);
    assert_eq!(Shape::Hexagon.property().description, "stuff");
    assert_eq!(SQUARE_RUNS.load(Ordering::SeqCst), 0);
    assert_eq!(Shape::Square.property().description, "");
    assert_eq!(SQUARE_RUNS.load(Ordering::SeqCst), 1);
}
