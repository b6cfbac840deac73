pub mod ownership;

pub use crate::ownership::{
    calculate_length, calculate_length_2, change, change_mutable, dangle, gives_ownership,
    takes_and_gives_back,
};
