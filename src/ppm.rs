//! Plain-text "P3" image output: a header of format identifier, `width height`
//! and the maximum channel value, then one `r g b` line per pixel.
use vstd::prelude::*;
use vstd::string::*;

verus! {

/// A quantized pixel: each channel lies in `[0, 255]`.
#[derive(Clone, Copy, Debug, PartialEq, Eq, Structural)]
pub struct Rgb {
    pub r: u8,
    pub g: u8,
    pub b: u8,
}

/// The character of a decimal digit.
pub open spec fn digit_char(d: nat) -> char {
    if d == 0 { '0' }
    else if d == 1 { '1' }
    else if d == 2 { '2' }
    else if d == 3 { '3' }
    else if d == 4 { '4' }
    else if d == 5 { '5' }
    else if d == 6 { '6' }
    else if d == 7 { '7' }
    else if d == 8 { '8' }
    else { '9' }
}

/// The decimal representation of `n`, without leading zeros.
pub open spec fn decimal(n: nat) -> Seq<char>
    decreases n,
{
    if n < 10 {
        seq![digit_char(n)]
    } else {
        decimal(n / 10).push(digit_char(n % 10))
    }
}

/// The header of a P3 image of the given size.
pub open spec fn header_text(width: nat, height: nat) -> Seq<char> {
    seq!['P', '3', '\n'] + decimal(width) + seq![' '] + decimal(height) + seq![
        '\n',
        '2',
        '5',
        '5',
        '\n',
    ]
}

/// The line of one pixel: its three channels separated by spaces.
pub open spec fn pixel_text(p: Rgb) -> Seq<char> {
    decimal(p.r as nat) + seq![' '] + decimal(p.g as nat) + seq![' '] + decimal(p.b as nat)
        + seq!['\n']
}

/// The lines of the first `n` pixels, in order.
pub open spec fn pixels_text(pixels: Seq<Rgb>, n: nat) -> Seq<char>
    decreases n,
{
    if n == 0 || n > pixels.len() {
        Seq::empty()
    } else {
        pixels_text(pixels, (n - 1) as nat) + pixel_text(pixels[n - 1])
    }
}

fn digit_str(d: u32) -> (r: &'static str)
    requires
        d < 10,
    ensures
        r@ == seq![digit_char(d as nat)],
{
    proof {
        reveal_strlit("0");
        reveal_strlit("1");
        reveal_strlit("2");
        reveal_strlit("3");
        reveal_strlit("4");
        reveal_strlit("5");
        reveal_strlit("6");
        reveal_strlit("7");
        reveal_strlit("8");
        reveal_strlit("9");
    }
    if d == 0 { "0" }
    else if d == 1 { "1" }
    else if d == 2 { "2" }
    else if d == 3 { "3" }
    else if d == 4 { "4" }
    else if d == 5 { "5" }
    else if d == 6 { "6" }
    else if d == 7 { "7" }
    else if d == 8 { "8" }
    else { "9" }
}

/// Appends the decimal representation of `n`.
pub fn push_decimal(s: &mut String, n: u32)
    ensures
        final(s)@ == old(s)@ + decimal(n as nat),
    decreases n,
{
    if n >= 10 {
        push_decimal(s, n / 10);
    }
    s.append(digit_str(n % 10));
}

/// The header of a P3 image of `width` by `height` pixels.
pub fn header(width: u32, height: u32) -> (r: String)
    ensures
        r@ == header_text(width as nat, height as nat),
{
    proof {
        reveal_strlit("P3\n");
        reveal_strlit(" ");
        reveal_strlit("\n255\n");
    }
    let mut s = String::new();
    s.append("P3\n");
    push_decimal(&mut s, width);
    s.append(" ");
    push_decimal(&mut s, height);
    s.append("\n255\n");
    assert(s@ =~= header_text(width as nat, height as nat));
    s
}

/// Appends the line of one pixel.
pub fn push_pixel(s: &mut String, p: Rgb)
    ensures
        final(s)@ == old(s)@ + pixel_text(p),
{
    proof {
        reveal_strlit(" ");
        reveal_strlit("\n");
    }
    push_decimal(s, p.r as u32);
    s.append(" ");
    push_decimal(s, p.g as u32);
    s.append(" ");
    push_decimal(s, p.b as u32);
    s.append("\n");
}

/// The line of one pixel, as the image sink writes it.
pub fn pixel_line(p: Rgb) -> (r: String)
    ensures
        r@ == pixel_text(p),
{
    let mut s = String::new();
    push_pixel(&mut s, p);
    assert(s@ =~= pixel_text(p));
    s
}

/// What an image holds: its size and the pixels received so far, in
/// row-major order.
pub ghost struct ImageModel {
    pub width: nat,
    pub height: nat,
    pub pixels: Seq<Rgb>,
}

impl ImageModel {
    /// The number of pixels of a complete image.
    pub open spec fn capacity(self) -> nat {
        self.width * self.height
    }

    /// No more pixels were received than the image has.
    pub open spec fn wf(self) -> bool {
        self.pixels.len() <= self.capacity()
    }

    /// The P3 text of the pixels received so far, after the header.
    pub open spec fn text(self) -> Seq<char> {
        header_text(self.width, self.height) + pixels_text(self.pixels, self.pixels.len())
    }
}

/// An image sink: receives quantized pixels in row-major order and emits the
/// P3 text of the image.
pub struct Image {
    width: u32,
    height: u32,
    pixels: Vec<Rgb>,
}

impl View for Image {
    type V = ImageModel;

    closed spec fn view(&self) -> ImageModel {
        ImageModel { width: self.width as nat, height: self.height as nat, pixels: self.pixels@ }
    }
}

impl Image {
    /// An image of `width` by `height` pixels with no pixel received yet.
    pub fn new(width: u32, height: u32) -> (r: Image)
        ensures
            r@.width == width,
            r@.height == height,
            r@.pixels == Seq::<Rgb>::empty(),
            r@.wf(),
    {
        Image { width, height, pixels: Vec::new() }
    }

    pub fn width(&self) -> (r: u32)
        ensures
            r == self@.width,
    {
        self.width
    }

    pub fn height(&self) -> (r: u32)
        ensures
            r == self@.height,
    {
        self.height
    }

    /// The number of pixels received so far.
    pub fn len(&self) -> (r: usize)
        ensures
            r == self@.pixels.len(),
    {
        self.pixels.len()
    }

    /// Every pixel of the image was received.
    pub fn is_complete(&self) -> (r: bool)
        requires
            self@.wf(),
        ensures
            r == (self@.pixels.len() == self@.capacity()),
    {
        let w = self.width as u64;
        let h = self.height as u64;
        assert(w * h <= 0xffff_ffff * 0xffff_ffff) by (nonlinear_arith)
            requires
                w <= 0xffff_ffff,
                h <= 0xffff_ffff,
        ;
        let cap: u64 = w * h;
        self.pixels.len() as u64 == cap
    }

    /// Receives the next pixel in row-major order.
    pub fn push(&mut self, p: Rgb)
        requires
            old(self)@.wf(),
            old(self)@.pixels.len() < old(self)@.capacity(),
        ensures
            final(self)@.width == old(self)@.width,
            final(self)@.height == old(self)@.height,
            final(self)@.pixels == old(self)@.pixels.push(p),
            final(self)@.wf(),
    {
        self.pixels.push(p);
    }

    /// The P3 text of the image: the header, then one line per pixel
    /// received, in order.
    pub fn to_text(&self) -> (r: String)
        ensures
            r@ == self@.text(),
    {
        let mut s = header(self.width, self.height);
        let mut i: usize = 0;
        while i < self.pixels.len()
            invariant
                i <= self.pixels@.len(),
                s@ == header_text(self.width as nat, self.height as nat) + pixels_text(self.pixels@, i as nat),
            decreases self.pixels@.len() - i,
        {
            push_pixel(&mut s, self.pixels[i]);
            assert(s@ =~= header_text(self.width as nat, self.height as nat) + pixels_text(self.pixels@, (i + 1) as nat));
            i = i + 1;
        }
        s
    }
}

} // verus!
