use std::ops::Range;

use stap::{
    many0, many1, Anchor, Cursor, Input, InputRef, Many0, Many1, Parser, Read, ReadAtLeast, Step,
};

fn is_alpha(x: &u8) -> bool {
    x.is_ascii_alphabetic()
}

fn is_digit(x: &u8) -> bool {
    x.is_ascii_digit()
}

type ByteMany0 = Many0<u8, fn(&u8) -> bool>;
type ByteMany1 = Many1<u8, fn(&u8) -> bool>;

/// Letters, then digits, then letters again: three ranges.
struct AlphaDigitAlpha {
    parsers: (ByteMany0, ByteMany0, ByteMany0),
    done: Vec<Range<usize>>,
}

impl AlphaDigitAlpha {
    fn new() -> Self {
        AlphaDigitAlpha {
            parsers: (
                many0(is_alpha as fn(&u8) -> bool),
                many0(is_digit as fn(&u8) -> bool),
                many0(is_alpha as fn(&u8) -> bool),
            ),
            done: Vec::new(),
        }
    }
}

impl Parser<u8> for AlphaDigitAlpha {
    type Output = (Range<usize>, Range<usize>, Range<usize>);

    fn resume(&mut self, input: &mut InputRef<u8>) -> Step<Self::Output> {
        loop {
            let step = match self.done.len() {
                0 => self.parsers.0.resume(input),
                1 => self.parsers.1.resume(input),
                _ => self.parsers.2.resume(input),
            };
            match step {
                Step::Pending => return Step::Pending,
                Step::Ready(r) => self.done.push(r),
            }
            if self.done.len() == 3 {
                let c = self.done[2].clone();
                let b = self.done[1].clone();
                let a = self.done[0].clone();
                return Step::Ready((a, b, c));
            }
        }
    }
}

/// Letters, digits, letters, each at least once; on failure the index goes
/// back to where the parser started.
struct AnchoredAlphaDigitAlpha {
    anchor: Option<Anchor>,
    parsers: (ByteMany1, ByteMany1, ByteMany1),
    done: Vec<Range<usize>>,
}

impl AnchoredAlphaDigitAlpha {
    fn new() -> Self {
        AnchoredAlphaDigitAlpha {
            anchor: None,
            parsers: (
                many1(is_alpha as fn(&u8) -> bool),
                many1(is_digit as fn(&u8) -> bool),
                many1(is_alpha as fn(&u8) -> bool),
            ),
            done: Vec::new(),
        }
    }
}

impl Parser<u8> for AnchoredAlphaDigitAlpha {
    type Output = Result<(Range<usize>, Range<usize>, Range<usize>), ()>;

    fn resume(&mut self, input: &mut InputRef<u8>) -> Step<Self::Output> {
        if self.anchor.is_none() {
            self.anchor = Some(Anchor::new(input));
        }
        loop {
            let step = match self.done.len() {
                0 => self.parsers.0.resume(input),
                1 => self.parsers.1.resume(input),
                _ => self.parsers.2.resume(input),
            };
            match step {
                Step::Pending => return Step::Pending,
                Step::Ready(Err(())) => {
                    self.anchor.take().unwrap().restore(input);
                    return Step::Ready(Err(()));
                }
                Step::Ready(Ok(r)) => self.done.push(r),
            }
            if self.done.len() == 3 {
                self.anchor.take().unwrap().forget();
                let c = self.done[2].clone();
                let b = self.done[1].clone();
                let a = self.done[0].clone();
                return Step::Ready(Ok((a, b, c)));
            }
        }
    }
}

#[test]
fn test_read() {
    let mut input = Input::new(Cursor {
        buf: vec![1, 2, 3],
        index: 0,
    });

    let mut p = input.start_parsing(Read::new());

    assert!(!p.poll());
    p.cursor_mut().buf.push(4);
    assert!(p.poll());
}

#[test]
fn test_get3() {
    let mut input = Input::new(Cursor {
        buf: Vec::new(),
        index: 0,
    });

    let mut p = input.start_parsing(ReadAtLeast::new(3));

    assert!(!p.poll());
    p.cursor_mut().buf.push(1);
    assert!(!p.poll());
    p.cursor_mut().buf.push(2);
    assert!(!p.poll());
    p.cursor_mut().buf.push(3);
    assert!(p.poll());
}

#[test]
fn test_many0() {
    let mut input = Input::new(Cursor {
        buf: Vec::new(),
        index: 0,
    });

    let mut p = input.start_parsing(many0(|x: &i32| *x % 2 == 0));

    p.cursor_mut().buf.push(0);
    assert!(!p.poll());

    p.cursor_mut().buf.push(2);
    assert!(!p.poll());

    p.cursor_mut().buf.push(4);
    assert!(!p.poll());

    p.cursor_mut().buf.push(1);
    assert!(p.poll());

    assert_eq!(p.into_result(), Some(0..3));
}

#[test]
fn test_parsing() {
    let mut input = Input::new(Cursor {
        buf: Vec::new(),
        index: 0,
    });

    let mut parsing = input.start_parsing(AlphaDigitAlpha::new());

    parsing.cursor_mut().buf.extend(b"abc");
    assert!(!parsing.poll());
    parsing.cursor_mut().buf.extend(b"123");
    assert!(!parsing.poll());
    parsing.cursor_mut().buf.extend(b"abc");
    assert!(!parsing.poll());
    parsing.cursor_mut().buf.extend(b";");
    assert!(parsing.poll());
    assert_eq!(parsing.into_result(), Some((0..3, 3..6, 6..9)));
}

#[test]
fn test_parsing_input() {
    let input = Input::new(Cursor {
        buf: Vec::new(),
        index: 0,
    });

    let mut parsing_input = input.into_parsing_input();

    parsing_input.start_parsing(AlphaDigitAlpha::new());

    parsing_input.cursor_mut().buf.extend(b"abc");
    assert!(!parsing_input.poll());
    parsing_input.cursor_mut().buf.extend(b"123");
    assert!(!parsing_input.poll());
    parsing_input.cursor_mut().buf.extend(b"abc");
    assert!(!parsing_input.poll());
    parsing_input.cursor_mut().buf.extend(b";");
    assert!(parsing_input.poll());
    assert_eq!(parsing_input.result_mut(), Some(&mut (0..3, 3..6, 6..9)));
}

#[test]
fn test_anchor() {
    let mut input = Input::new(Cursor {
        buf: Vec::new(),
        index: 0,
    });

    let mut parsing = input.start_parsing(AnchoredAlphaDigitAlpha::new());

    parsing.cursor_mut().buf.extend(b"abc");

    assert!(!parsing.poll());

    parsing.cursor_mut().buf.extend(b"123");

    assert!(!parsing.poll());

    parsing.cursor_mut().buf.extend(b";");

    assert!(parsing.poll());

    assert_eq!(parsing.into_result(), Some(Err(())));
    assert_eq!(input.cursor().index, 0);
}
