# stand_awhile

The decisions of a small Windows reminder: a countdown that, when it runs
out, tells the user to stand up and move. The library holds what the program
decides; the program around it draws the windows and talks to Windows.

- `window_proc`: the countdown (`CountdownTimer`): ticks, the Play, Pause and
  Reset buttons, which buttons can be pressed, and how a window message, a
  menu command or the end of the countdown is handled.
- `button`: the layout, hit test, colours and icons of the three round buttons.
- `countdown`: the `MM:SS` / `HH:MM:SS` text and where it is drawn.
- `check_box`, `hyper_link_text`, `hover`: the state of the check box and of
  the link, and their geometry and colours.
- `theme`, `i18n`, `config`, `toast`, `tray_icon`, `about`, `main_window`,
  `gdi_plus`, `font_cache`, `wide`, `text`, `geometry`: settings, texts,
  notification documents, UTF-16 text, and the small pieces the windows share.

`app/` is the Windows program built on the library.
