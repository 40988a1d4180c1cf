use vstd::prelude::*;
use crate::patchable::Patchable;
use core::convert::Infallible;

verus! {

// Every scalar type patches by whole-value replacement: a patch is simply the
// target value, produced only when the two values differ, and applying it
// overwrites the old value unconditionally, so application never fails.

impl Patchable for u8 {
    type Patch = u8;

    type Error = Infallible;

    open spec fn eqv(a: u8, b: u8) -> bool {
        a == b
    }

    open spec fn produce_rel(a: u8, b: u8, r: Option<u8>) -> bool {
        r == if a == b { None::<u8> } else { Some(b) }
    }

    open spec fn apply_rel(pre: u8, p: u8, post: u8, r: Result<(), Infallible>) -> bool {
        post == p && r is Ok
    }

    proof fn lemma_eqv_refl(a: u8) {
    }

    proof fn lemma_produce_absent_iff_eqv(a: u8, b: u8, r: Option<u8>) {
    }

    proof fn lemma_round_trip(
        a: u8,
        b: u8,
        p: u8,
        start: u8,
        post: u8,
        r: Result<(), Infallible>,
    ) {
    }

    fn dup(&self) -> (r: u8) {
        *self
    }

    fn produce(&self, other: &u8) -> (r: Option<u8>) {
        if *self != *other {
            Some(*other)
        } else {
            None
        }
    }

    fn apply(&mut self, patch: u8) -> (r: Result<(), Infallible>) {
        *self = patch;
        Ok(())
    }
}

impl Patchable for i8 {
    type Patch = i8;

    type Error = Infallible;

    open spec fn eqv(a: i8, b: i8) -> bool {
        a == b
    }

    open spec fn produce_rel(a: i8, b: i8, r: Option<i8>) -> bool {
        r == if a == b { None::<i8> } else { Some(b) }
    }

    open spec fn apply_rel(pre: i8, p: i8, post: i8, r: Result<(), Infallible>) -> bool {
        post == p && r is Ok
    }

    proof fn lemma_eqv_refl(a: i8) {
    }

    proof fn lemma_produce_absent_iff_eqv(a: i8, b: i8, r: Option<i8>) {
    }

    proof fn lemma_round_trip(
        a: i8,
        b: i8,
        p: i8,
        start: i8,
        post: i8,
        r: Result<(), Infallible>,
    ) {
    }

    fn dup(&self) -> (r: i8) {
        *self
    }

    fn produce(&self, other: &i8) -> (r: Option<i8>) {
        if *self != *other {
            Some(*other)
        } else {
            None
        }
    }

    fn apply(&mut self, patch: i8) -> (r: Result<(), Infallible>) {
        *self = patch;
        Ok(())
    }
}

impl Patchable for u16 {
    type Patch = u16;

    type Error = Infallible;

    open spec fn eqv(a: u16, b: u16) -> bool {
        a == b
    }

    open spec fn produce_rel(a: u16, b: u16, r: Option<u16>) -> bool {
        r == if a == b { None::<u16> } else { Some(b) }
    }

    open spec fn apply_rel(pre: u16, p: u16, post: u16, r: Result<(), Infallible>) -> bool {
        post == p && r is Ok
    }

    proof fn lemma_eqv_refl(a: u16) {
    }

    proof fn lemma_produce_absent_iff_eqv(a: u16, b: u16, r: Option<u16>) {
    }

    proof fn lemma_round_trip(
        a: u16,
        b: u16,
        p: u16,
        start: u16,
        post: u16,
        r: Result<(), Infallible>,
    ) {
    }

    fn dup(&self) -> (r: u16) {
        *self
    }

    fn produce(&self, other: &u16) -> (r: Option<u16>) {
        if *self != *other {
            Some(*other)
        } else {
            None
        }
    }

    fn apply(&mut self, patch: u16) -> (r: Result<(), Infallible>) {
        *self = patch;
        Ok(())
    }
}

impl Patchable for i16 {
    type Patch = i16;

    type Error = Infallible;

    open spec fn eqv(a: i16, b: i16) -> bool {
        a == b
    }

    open spec fn produce_rel(a: i16, b: i16, r: Option<i16>) -> bool {
        r == if a == b { None::<i16> } else { Some(b) }
    }

    open spec fn apply_rel(pre: i16, p: i16, post: i16, r: Result<(), Infallible>) -> bool {
        post == p && r is Ok
    }

    proof fn lemma_eqv_refl(a: i16) {
    }

    proof fn lemma_produce_absent_iff_eqv(a: i16, b: i16, r: Option<i16>) {
    }

    proof fn lemma_round_trip(
        a: i16,
        b: i16,
        p: i16,
        start: i16,
        post: i16,
        r: Result<(), Infallible>,
    ) {
    }

    fn dup(&self) -> (r: i16) {
        *self
    }

    fn produce(&self, other: &i16) -> (r: Option<i16>) {
        if *self != *other {
            Some(*other)
        } else {
            None
        }
    }

    fn apply(&mut self, patch: i16) -> (r: Result<(), Infallible>) {
        *self = patch;
        Ok(())
    }
}

impl Patchable for u32 {
    type Patch = u32;

    type Error = Infallible;

    open spec fn eqv(a: u32, b: u32) -> bool {
        a == b
    }

    open spec fn produce_rel(a: u32, b: u32, r: Option<u32>) -> bool {
        r == if a == b { None::<u32> } else { Some(b) }
    }

    open spec fn apply_rel(pre: u32, p: u32, post: u32, r: Result<(), Infallible>) -> bool {
        post == p && r is Ok
    }

    proof fn lemma_eqv_refl(a: u32) {
    }

    proof fn lemma_produce_absent_iff_eqv(a: u32, b: u32, r: Option<u32>) {
    }

    proof fn lemma_round_trip(
        a: u32,
        b: u32,
        p: u32,
        start: u32,
        post: u32,
        r: Result<(), Infallible>,
    ) {
    }

    fn dup(&self) -> (r: u32) {
        *self
    }

    fn produce(&self, other: &u32) -> (r: Option<u32>) {
        if *self != *other {
            Some(*other)
        } else {
            None
        }
    }

    fn apply(&mut self, patch: u32) -> (r: Result<(), Infallible>) {
        *self = patch;
        Ok(())
    }
}

impl Patchable for i32 {
    type Patch = i32;

    type Error = Infallible;

    open spec fn eqv(a: i32, b: i32) -> bool {
        a == b
    }

    open spec fn produce_rel(a: i32, b: i32, r: Option<i32>) -> bool {
        r == if a == b { None::<i32> } else { Some(b) }
    }

    open spec fn apply_rel(pre: i32, p: i32, post: i32, r: Result<(), Infallible>) -> bool {
        post == p && r is Ok
    }

    proof fn lemma_eqv_refl(a: i32) {
    }

    proof fn lemma_produce_absent_iff_eqv(a: i32, b: i32, r: Option<i32>) {
    }

    proof fn lemma_round_trip(
        a: i32,
        b: i32,
        p: i32,
        start: i32,
        post: i32,
        r: Result<(), Infallible>,
    ) {
    }

    fn dup(&self) -> (r: i32) {
        *self
    }

    fn produce(&self, other: &i32) -> (r: Option<i32>) {
        if *self != *other {
            Some(*other)
        } else {
            None
        }
    }

    fn apply(&mut self, patch: i32) -> (r: Result<(), Infallible>) {
        *self = patch;
        Ok(())
    }
}

impl Patchable for u64 {
    type Patch = u64;

    type Error = Infallible;

    open spec fn eqv(a: u64, b: u64) -> bool {
        a == b
    }

    open spec fn produce_rel(a: u64, b: u64, r: Option<u64>) -> bool {
        r == if a == b { None::<u64> } else { Some(b) }
    }

    open spec fn apply_rel(pre: u64, p: u64, post: u64, r: Result<(), Infallible>) -> bool {
        post == p && r is Ok
    }

    proof fn lemma_eqv_refl(a: u64) {
    }

    proof fn lemma_produce_absent_iff_eqv(a: u64, b: u64, r: Option<u64>) {
    }

    proof fn lemma_round_trip(
        a: u64,
        b: u64,
        p: u64,
        start: u64,
        post: u64,
        r: Result<(), Infallible>,
    ) {
    }

    fn dup(&self) -> (r: u64) {
        *self
    }

    fn produce(&self, other: &u64) -> (r: Option<u64>) {
        if *self != *other {
            Some(*other)
        } else {
            None
        }
    }

    fn apply(&mut self, patch: u64) -> (r: Result<(), Infallible>) {
        *self = patch;
        Ok(())
    }
}

impl Patchable for i64 {
    type Patch = i64;

    type Error = Infallible;

    open spec fn eqv(a: i64, b: i64) -> bool {
        a == b
    }

    open spec fn produce_rel(a: i64, b: i64, r: Option<i64>) -> bool {
        r == if a == b { None::<i64> } else { Some(b) }
    }

    open spec fn apply_rel(pre: i64, p: i64, post: i64, r: Result<(), Infallible>) -> bool {
        post == p && r is Ok
    }

    proof fn lemma_eqv_refl(a: i64) {
    }

    proof fn lemma_produce_absent_iff_eqv(a: i64, b: i64, r: Option<i64>) {
    }

    proof fn lemma_round_trip(
        a: i64,
        b: i64,
        p: i64,
        start: i64,
        post: i64,
        r: Result<(), Infallible>,
    ) {
    }

    fn dup(&self) -> (r: i64) {
        *self
    }

    fn produce(&self, other: &i64) -> (r: Option<i64>) {
        if *self != *other {
            Some(*other)
        } else {
            None
        }
    }

    fn apply(&mut self, patch: i64) -> (r: Result<(), Infallible>) {
        *self = patch;
        Ok(())
    }
}

impl Patchable for usize {
    type Patch = usize;

    type Error = Infallible;

    open spec fn eqv(a: usize, b: usize) -> bool {
        a == b
    }

    open spec fn produce_rel(a: usize, b: usize, r: Option<usize>) -> bool {
        r == if a == b { None::<usize> } else { Some(b) }
    }

    open spec fn apply_rel(pre: usize, p: usize, post: usize, r: Result<(), Infallible>) -> bool {
        post == p && r is Ok
    }

    proof fn lemma_eqv_refl(a: usize) {
    }

    proof fn lemma_produce_absent_iff_eqv(a: usize, b: usize, r: Option<usize>) {
    }

    proof fn lemma_round_trip(
        a: usize,
        b: usize,
        p: usize,
        start: usize,
        post: usize,
        r: Result<(), Infallible>,
    ) {
    }

    fn dup(&self) -> (r: usize) {
        *self
    }

    fn produce(&self, other: &usize) -> (r: Option<usize>) {
        if *self != *other {
            Some(*other)
        } else {
            None
        }
    }

    fn apply(&mut self, patch: usize) -> (r: Result<(), Infallible>) {
        *self = patch;
        Ok(())
    }
}

impl Patchable for isize {
    type Patch = isize;

    type Error = Infallible;

    open spec fn eqv(a: isize, b: isize) -> bool {
        a == b
    }

    open spec fn produce_rel(a: isize, b: isize, r: Option<isize>) -> bool {
        r == if a == b { None::<isize> } else { Some(b) }
    }

    open spec fn apply_rel(pre: isize, p: isize, post: isize, r: Result<(), Infallible>) -> bool {
        post == p && r is Ok
    }

    proof fn lemma_eqv_refl(a: isize) {
    }

    proof fn lemma_produce_absent_iff_eqv(a: isize, b: isize, r: Option<isize>) {
    }

    proof fn lemma_round_trip(
        a: isize,
        b: isize,
        p: isize,
        start: isize,
        post: isize,
        r: Result<(), Infallible>,
    ) {
    }

    fn dup(&self) -> (r: isize) {
        *self
    }

    fn produce(&self, other: &isize) -> (r: Option<isize>) {
        if *self != *other {
            Some(*other)
        } else {
            None
        }
    }

    fn apply(&mut self, patch: isize) -> (r: Result<(), Infallible>) {
        *self = patch;
        Ok(())
    }
}

impl Patchable for bool {
    type Patch = bool;

    type Error = Infallible;

    open spec fn eqv(a: bool, b: bool) -> bool {
        a == b
    }

    open spec fn produce_rel(a: bool, b: bool, r: Option<bool>) -> bool {
        r == if a == b { None::<bool> } else { Some(b) }
    }

    open spec fn apply_rel(pre: bool, p: bool, post: bool, r: Result<(), Infallible>) -> bool {
        post == p && r is Ok
    }

    proof fn lemma_eqv_refl(a: bool) {
    }

    proof fn lemma_produce_absent_iff_eqv(a: bool, b: bool, r: Option<bool>) {
    }

    proof fn lemma_round_trip(
        a: bool,
        b: bool,
        p: bool,
        start: bool,
        post: bool,
        r: Result<(), Infallible>,
    ) {
    }

    fn dup(&self) -> (r: bool) {
        *self
    }

    fn produce(&self, other: &bool) -> (r: Option<bool>) {
        if *self != *other {
            Some(*other)
        } else {
            None
        }
    }

    fn apply(&mut self, patch: bool) -> (r: Result<(), Infallible>) {
        *self = patch;
        Ok(())
    }
}

impl Patchable for char {
    type Patch = char;

    type Error = Infallible;

    open spec fn eqv(a: char, b: char) -> bool {
        a == b
    }

    open spec fn produce_rel(a: char, b: char, r: Option<char>) -> bool {
        r == if a == b { None::<char> } else { Some(b) }
    }

    open spec fn apply_rel(pre: char, p: char, post: char, r: Result<(), Infallible>) -> bool {
        post == p && r is Ok
    }

    proof fn lemma_eqv_refl(a: char) {
    }

    proof fn lemma_produce_absent_iff_eqv(a: char, b: char, r: Option<char>) {
    }

    proof fn lemma_round_trip(
        a: char,
        b: char,
        p: char,
        start: char,
        post: char,
        r: Result<(), Infallible>,
    ) {
    }

    fn dup(&self) -> (r: char) {
        *self
    }

    fn produce(&self, other: &char) -> (r: Option<char>) {
        if *self != *other {
            Some(*other)
        } else {
            None
        }
    }

    fn apply(&mut self, patch: char) -> (r: Result<(), Infallible>) {
        *self = patch;
        Ok(())
    }
}

// Text patches the same way, except that its notion of equality is equality
// of the character sequences the two strings hold.

impl Patchable for String {
    type Patch = String;

    type Error = Infallible;

    open spec fn eqv(a: String, b: String) -> bool {
        a@ == b@
    }

    open spec fn produce_rel(a: String, b: String, r: Option<String>) -> bool {
        match r {
            None => a@ == b@,
            Some(p) => a@ != b@ && p@ == b@,
        }
    }

    open spec fn apply_rel(
        pre: String,
        p: String,
        post: String,
        r: Result<(), Infallible>,
    ) -> bool {
        post == p && r is Ok
    }

    proof fn lemma_eqv_refl(a: String) {
    }

    proof fn lemma_produce_absent_iff_eqv(a: String, b: String, r: Option<String>) {
    }

    proof fn lemma_round_trip(
        a: String,
        b: String,
        p: String,
        start: String,
        post: String,
        r: Result<(), Infallible>,
    ) {
    }

    fn dup(&self) -> (r: String) {
        self.clone()
    }

    fn produce(&self, other: &String) -> (r: Option<String>) {
        if *self != *other {
            Some(other.clone())
        } else {
            None
        }
    }

    fn apply(&mut self, patch: String) -> (r: Result<(), Infallible>) {
        *self = patch;
        Ok(())
    }
}

} // verus!
