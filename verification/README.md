# fractals

Fractal shaders (Sierpinski triangle and carpet, Koch curve, Mandelbrot and
Julia sets, Mandelbox, Menger sponge) and the program that shows one in a
window.

- `src/` is the verified library: the swapchain's decisions (when to
  configure the surface, when to retry, when to give up), the event loop's
  answers, the menu and the environment settings, the vertex corners of the
  full-screen geometry, and the iteration control of the shaders
  (escape-time counting, bounded folding loops, ray marching, animated
  depths).
- `app/` is the program: the menu on standard input, the window and GPU
  calls, and the shaders' floating-point math, run on the CPU.
- `tests/` exercises the library on concrete values.
