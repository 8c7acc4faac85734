pub mod color_algs;
pub mod mandelbrot;
