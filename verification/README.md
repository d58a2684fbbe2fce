# termal

Terminal escape codes, colored text templates, gradients, texel images and
progress lines, written in Verus with their behaviour stated as contracts and
proved.

- `src/` is the verified library:
  - `codes`: escape code constants and the codes with parameters (cursor
    moves, colors, cursor styles, color definitions, selections);
  - `template`: templates such as `"{'yellow italic}hi{'_}"`, expanded with
    or without their commands, the mistakes they can hold and their messages,
    and the template argument of the formatting macros;
  - `gradient`: text with a foreground color for each character, as
    gradients are written;
  - `image`: pixel matrices, sixel columns, texels and texel images;
  - `progress`: update policies, durations, progress bars and progress dots;
  - `echo`: how one raw byte from the terminal is shown.
- `app/` is the terminal side: printing, the clock, floating point image
  sampling and gradient colors, and the procedural macro front end over `proc_macro2`.
- `tests/` runs the library on concrete values.
