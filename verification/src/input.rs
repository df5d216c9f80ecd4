//! Input as plain values. The shell translates framework events and key
//! polling into these types once per frame and hands them to the reader.

use vstd::prelude::*;

verus! {

/// One window event that the reader reacts to. A wheel event carries only
/// the sign of its vertical delta (`-1`, `0` or `1` as the shell reports
/// it); a drop carries the file's MIME type as bytes.
#[derive(Debug)]
pub enum InputEvent {
    /// A drag entered the window.
    DragEnter,
    /// Every drag left the window.
    DragLeave,
    /// The mouse wheel turned; `delta_sign` is the sign of the vertical
    /// delta.
    MouseWheel { delta_sign: i8 },
    /// A file was dropped on the window.
    FileDrop { mime: Vec<u8> },
}

/// Which of the recognized keys are held this frame.
#[derive(Clone, Copy, Debug, PartialEq, Eq, Structural)]
pub struct KeySet {
    pub q: bool,
    pub w: bool,
    pub e: bool,
    pub r: bool,
    pub t: bool,
    pub y: bool,
    pub u: bool,
    pub i: bool,
    pub o: bool,
    pub p: bool,
    pub a: bool,
    pub v: bool,
    pub c: bool,
    pub z: bool,
    pub x: bool,
    pub f: bool,
    pub g: bool,
    pub h: bool,
    pub j: bool,
    pub k: bool,
    pub l: bool,
    pub b: bool,
    pub n: bool,
    pub m: bool,
    pub num1: bool,
    pub num2: bool,
    pub num3: bool,
    pub up: bool,
    pub down: bool,
}

impl KeySet {
    /// The frame with no key held.
    pub fn none() -> (k: KeySet)
        ensures
            k == (KeySet {
                q: false,
                w: false,
                e: false,
                r: false,
                t: false,
                y: false,
                u: false,
                i: false,
                o: false,
                p: false,
                a: false,
                v: false,
                c: false,
                z: false,
                x: false,
                f: false,
                g: false,
                h: false,
                j: false,
                k: false,
                l: false,
                b: false,
                n: false,
                m: false,
                num1: false,
                num2: false,
                num3: false,
                up: false,
                down: false,
            }),
    {
        KeySet {
            q: false,
            w: false,
            e: false,
            r: false,
            t: false,
            y: false,
            u: false,
            i: false,
            o: false,
            p: false,
            a: false,
            v: false,
            c: false,
            z: false,
            x: false,
            f: false,
            g: false,
            h: false,
            j: false,
            k: false,
            l: false,
            b: false,
            n: false,
            m: false,
            num1: false,
            num2: false,
            num3: false,
            up: false,
            down: false,
        }
    }
}

} // verus!
