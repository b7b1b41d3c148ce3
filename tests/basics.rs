use primer::borrow::{append_world, static_ref};
use primer::generic::{largest, Point};
use primer::rectangle::Rectangle;
use primer::slices::{first_word, sum_slice};
use primer::summary::{Article, Book, Counter, Summary};

#[test]
fn rectangle_area_scale_square() {
    let mut r = Rectangle::new(5, 10);
    assert_eq!(r.area(), 50);
    r.scale(2);
    assert_eq!((r.width, r.height), (10, 20));
    assert_eq!(r.area(), 200);
    let sq = r.into_square();
    assert_eq!((sq.width, sq.height), (20, 20));
    let wide = Rectangle::new(7, 3).into_square();
    assert_eq!((wide.width, wide.height), (7, 7));
}

#[test]
fn rectangle_zero_scale() {
    let mut r = Rectangle::new(4, 9);
    r.scale(0);
    assert_eq!(r.area(), 0);
}

#[test]
fn first_word_cases() {
    assert_eq!(first_word("Sonic Sui"), "Sonic");
    assert_eq!(first_word("sonic bnb"), "sonic");
    assert_eq!(first_word("single"), "single");
    assert_eq!(first_word(""), "");
    assert_eq!(first_word(" lead"), "");
    assert_eq!(first_word("héllo wörld"), "héllo");
}

#[test]
fn sum_slice_cases() {
    assert_eq!(sum_slice(&[1, 2, 3]), 6);
    assert_eq!(sum_slice(&vec![4, 5, 6]), 15);
    assert_eq!(sum_slice(&[]), 0);
    assert_eq!(sum_slice(&[-3, 10, -20]), -13);
}

#[test]
fn append_world_extends() {
    let mut s = String::from("Jamie");
    append_world(&mut s);
    assert_eq!(s, "Jamie, how do you do?");
}

#[test]
fn static_ref_text() {
    assert_eq!(static_ref(), "hello!");
}

#[test]
fn largest_finds_maximum() {
    assert_eq!(*largest(&[34, 50, 25, 100, 67]), 100);
    assert_eq!(*largest(&[-1]), -1);
    assert_eq!(*largest(&['a', 'z', 'q']), 'z');
}

#[test]
fn point_x_getter() {
    let p = Point { x: 5, y: 10 };
    assert_eq!(*p.x(), 5);
    assert_eq!(p.y, 10);
}

#[test]
fn article_and_book_summaries() {
    let a = Article {
        headline: String::from("Rust"),
        content: String::from("Rust 9527 666"),
    };
    assert_eq!(a.summarize(), "Rust:  Rust 9527 666");
    assert_eq!(a.read(), "default read...");
    let b = Book {
        title: String::from("book obj"),
    };
    assert_eq!(b.summarize(), "default summarize...");
    assert_eq!(b.read(), "default read...");
}

#[test]
fn counter_stops_at_limit() {
    let mut c = Counter { count: 0 };
    let got: Vec<Option<u32>> = (0..7).map(|_| c.next()).collect();
    assert_eq!(
        got,
        vec![Some(1), Some(2), Some(3), Some(4), Some(5), None, None]
    );
    assert_eq!(c.count, 5);
}
