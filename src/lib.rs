//! Discrete-time signal processing over complex samples: clipping shifts,
//! running sums, first differences, energy and power, and forward / inverse
//! discrete Fourier transforms between signals and spectra.
pub mod complex;
pub mod signals;
pub mod spectrums;
pub mod fft;

pub use complex::Complex64;
pub use signals::Signal;
pub use spectrums::Spectrum;
pub use fft::{ForwardFFT, InverseFFT};
