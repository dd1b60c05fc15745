pub mod framing;
pub mod noise_codec;
pub mod noise_main;
pub mod sodium_wrapper;
pub mod wrapper;
