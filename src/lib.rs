//! Small verified programs: a counter shared by workers, a channel that
//! fans values from several producers into one consumer, a number guessing
//! game, and the text, collection, struct, enum and trait examples around
//! them.

pub mod channel;
pub mod counter;
pub mod guessing;

pub mod config;
pub mod guess;
pub mod hashmaps;
pub mod string_map;
pub mod vectors;
pub mod words;

pub mod basics;
pub mod boxes;
pub mod coins;
pub mod generics;
pub mod shapes;
pub mod summary;
pub mod users;

pub mod appetizers;
pub mod back_of_house;
pub mod breakfast;
pub mod front_of_house;
pub mod restaurant;
pub mod waitlist;
