use vstd::prelude::*;

use crate::objtrait::ObjectTrait;

verus! {

/// A cell for a light user-data address.
#[derive(Debug, Default, Clone, Copy, PartialEq, Eq)]
pub struct UserData(pub Option<usize>);

/// A cell for a boolean.
#[derive(Debug, Default, Clone, Copy, PartialEq, Eq)]
pub struct Bool(pub Option<bool>);

/// A cell for an integer.
#[derive(Debug, Default, Clone, Copy, PartialEq, Eq)]
pub struct Integer(pub Option<i32>);

/// A cell for a float, held by its IEEE-754 bit pattern.
#[derive(Debug, Default, Clone, Copy, PartialEq, Eq)]
pub struct Number(pub Option<u32>);

/// A cell for the host handle of a light native function.
#[derive(Debug, Default, Clone, Copy, PartialEq, Eq)]
pub struct RFunction(pub Option<usize>);

/// The nil cell: always empty, always hands out the unit value.
#[derive(Debug, Default, Clone, Copy, PartialEq, Eq)]
pub struct Nil();

impl ObjectTrait for UserData {
    type Item = usize;

    open spec fn content(&self) -> Option<usize> {
        self.0
    }

    open spec fn is_void(&self) -> bool {
        self.0 is None
    }

    open spec fn kept(val: Option<usize>) -> Option<usize> {
        val
    }

    open spec fn type_code() -> u8 {
        2
    }

    fn new(val: Option<usize>) -> (r: Self) {
        UserData(val)
    }

    fn is_none(&self) -> (r: bool) {
        self.0.is_none()
    }

    fn is_some(&self) -> (r: bool) {
        self.0.is_some()
    }

    fn reveal_type(&self) -> (r: u8) {
        2
    }

    fn set_value(&mut self, val: Option<usize>) {
        self.0 = val;
    }

    fn into_inner(&mut self) -> (r: Option<usize>) {
        self.0.take()
    }
}

impl ObjectTrait for Bool {
    type Item = bool;

    open spec fn content(&self) -> Option<bool> {
        self.0
    }

    open spec fn is_void(&self) -> bool {
        self.0 is None
    }

    open spec fn kept(val: Option<bool>) -> Option<bool> {
        val
    }

    open spec fn type_code() -> u8 {
        3
    }

    fn new(val: Option<bool>) -> (r: Self) {
        Bool(val)
    }

    fn is_none(&self) -> (r: bool) {
        self.0.is_none()
    }

    fn is_some(&self) -> (r: bool) {
        self.0.is_some()
    }

    fn reveal_type(&self) -> (r: u8) {
        3
    }

    fn set_value(&mut self, val: Option<bool>) {
        self.0 = val;
    }

    fn into_inner(&mut self) -> (r: Option<bool>) {
        self.0.take()
    }
}

impl ObjectTrait for Integer {
    type Item = i32;

    open spec fn content(&self) -> Option<i32> {
        self.0
    }

    open spec fn is_void(&self) -> bool {
        self.0 is None
    }

    open spec fn kept(val: Option<i32>) -> Option<i32> {
        val
    }

    open spec fn type_code() -> u8 {
        1
    }

    fn new(val: Option<i32>) -> (r: Self) {
        Integer(val)
    }

    fn is_none(&self) -> (r: bool) {
        self.0.is_none()
    }

    fn is_some(&self) -> (r: bool) {
        self.0.is_some()
    }

    fn reveal_type(&self) -> (r: u8) {
        1
    }

    fn set_value(&mut self, val: Option<i32>) {
        self.0 = val;
    }

    fn into_inner(&mut self) -> (r: Option<i32>) {
        self.0.take()
    }
}

impl ObjectTrait for Number {
    type Item = u32;

    open spec fn content(&self) -> Option<u32> {
        self.0
    }

    open spec fn is_void(&self) -> bool {
        self.0 is None
    }

    open spec fn kept(val: Option<u32>) -> Option<u32> {
        val
    }

    open spec fn type_code() -> u8 {
        17
    }

    fn new(val: Option<u32>) -> (r: Self) {
        Number(val)
    }

    fn is_none(&self) -> (r: bool) {
        self.0.is_none()
    }

    fn is_some(&self) -> (r: bool) {
        self.0.is_some()
    }

    fn reveal_type(&self) -> (r: u8) {
        17
    }

    fn set_value(&mut self, val: Option<u32>) {
        self.0 = val;
    }

    fn into_inner(&mut self) -> (r: Option<u32>) {
        self.0.take()
    }
}

impl ObjectTrait for RFunction {
    type Item = usize;

    open spec fn content(&self) -> Option<usize> {
        self.0
    }

    open spec fn is_void(&self) -> bool {
        self.0 is None
    }

    open spec fn kept(val: Option<usize>) -> Option<usize> {
        val
    }

    open spec fn type_code() -> u8 {
        23
    }

    fn new(val: Option<usize>) -> (r: Self) {
        RFunction(val)
    }

    fn is_none(&self) -> (r: bool) {
        self.0.is_none()
    }

    fn is_some(&self) -> (r: bool) {
        self.0.is_some()
    }

    fn reveal_type(&self) -> (r: u8) {
        23
    }

    fn set_value(&mut self, val: Option<usize>) {
        self.0 = val;
    }

    fn into_inner(&mut self) -> (r: Option<usize>) {
        self.0.take()
    }
}

impl ObjectTrait for Nil {
    type Item = ();

    open spec fn content(&self) -> Option<()> {
        Some(())
    }

    open spec fn is_void(&self) -> bool {
        true
    }

    open spec fn kept(val: Option<()>) -> Option<()> {
        Some(())
    }

    open spec fn type_code() -> u8 {
        5
    }

    fn new(_val: Option<()>) -> (r: Self) {
        Nil()
    }

    fn is_none(&self) -> (r: bool) {
        true
    }

    fn is_some(&self) -> (r: bool) {
        false
    }

    fn reveal_type(&self) -> (r: u8) {
        5
    }

    fn set_value(&mut self, _val: Option<()>) {
    }

    fn into_inner(&mut self) -> (r: Option<()>) {
        Some(())
    }
}

} // verus!
