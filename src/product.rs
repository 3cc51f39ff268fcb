use vstd::prelude::*;

use std::collections::HashMap;

verus! {

/// Length, width and height of an item, in a numeric type the caller picks.
#[derive(Debug, Clone, Copy, PartialEq, Eq)]
pub struct Dimensions<T> {
    pub length: T,
    pub width: T,
    pub height: T,
}

impl<T: Default> Dimensions<T> {
    /// Dimensions whose three lengths are the numeric type's default.
    pub fn new() -> (r: Dimensions<T>)
        ensures
            call_ensures(T::default, (), r.length),
            call_ensures(T::default, (), r.width),
            call_ensures(T::default, (), r.height),
    {
        Dimensions { length: T::default(), width: T::default(), height: T::default() }
    }
}

impl<T> Dimensions<T> {
    /// Dimensions from a length, a width and a height.
    pub fn from_lwh(length: T, width: T, height: T) -> (r: Dimensions<T>)
        ensures
            r.length == length,
            r.width == width,
            r.height == height,
    {
        Dimensions { length, width, height }
    }
}

impl<T: Default> Default for Dimensions<T> {
    fn default() -> (r: Dimensions<T>)
        ensures
            call_ensures(T::default, (), r.length),
            call_ensures(T::default, (), r.width),
            call_ensures(T::default, (), r.height),
    {
        Dimensions::new()
    }
}

/// An item of a booking: its quantity (an unsigned type), its weight and
/// dimensions (a real-valued type), a description and, once the service
/// has echoed it back, its id.
#[derive(Debug, Clone, PartialEq, Eq)]
pub struct Product<T, U> {
    pub quantity: T,
    /// Weighed by the service in whole kilograms.
    pub weight: U,
    /// On the wire these three fields sit beside the product's own.
    pub dimensions: Dimensions<U>,
    pub description: String,
    /// Absent while the caller creates the product.
    pub id: Option<u32>,
}

impl<T: Default, U: Default> Product<T, U> {
    /// A product with default numbers, no description and no id.
    pub open spec fn is_blank(&self) -> bool {
        &&& call_ensures(T::default, (), self.quantity)
        &&& call_ensures(U::default, (), self.weight)
        &&& call_ensures(U::default, (), self.dimensions.length)
        &&& call_ensures(U::default, (), self.dimensions.width)
        &&& call_ensures(U::default, (), self.dimensions.height)
        &&& self.description@ == Seq::<char>::empty()
        &&& self.id is None
    }

    /// An empty product, to be filled in field by field.
    pub fn new() -> (r: Product<T, U>)
        ensures
            r.is_blank(),
    {
        Product {
            quantity: T::default(),
            weight: U::default(),
            dimensions: Dimensions::new(),
            description: String::new(),
            id: None,
        }
    }
}

impl<T: Default, U: Default> Default for Product<T, U> {
    fn default() -> (r: Product<T, U>)
        ensures
            r.is_blank(),
    {
        Product::new()
    }
}

/// A carrier's quoted offering.
#[derive(Debug, PartialEq, Eq)]
pub struct Service<T> {
    pub total: T,
    pub price_insurance_ex: T,
    pub fee: T,
    pub insured_amount: T,
    pub service: String,
    pub transit_time: String,
    pub pickup_dates: Vec<String>,
    /// Pickup time window by weekday or label.
    pub pickup_time: HashMap<String, String>,
}

} // verus!
