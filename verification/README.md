# vinyl_viz

A music visualizer that deforms a vinyl-disc mesh with the spectrum of the
audio input and, in Spotify mode, shows the playing track and its album art.

`src/` is the library, verified with Verus:

- `spotify` — the client state and every decision of the sign-in and of the
  now-playing poll, as steps from state and network reply to next state;
- `pkce` — code verifier and S256 challenge, authorization URL, redirect
  callback, token request bodies;
- `config` — reading the client id from `spotify.properties`;
- `encoding` — URL-safe base64, form-urlencoding and decoding, SHA-256 and
  random bytes; the calls into `base64`, `url`, `sha2` and `rand` are trusted
  wrappers whose contracts Verus takes as given, the rest is verified;
- `text` — whitespace, trimming and searching over characters;
- `atlas` — packing glyph boxes into the HUD font atlas;
- `disc` — the triangle indices of the disc mesh;
- `audio` — device cycling, FFT window schedule and spectrum bin ranges;
- `hud` — Spotify mode toggling, per-frame choices and the HUD status lines;
- `media` — decoding album art to RGBA and choosing the HUD font; the calls
  into `image` and `ab_glyph` are trusted wrappers.

`app/` is the program around it: the window and OpenGL rendering, the camera,
the audio stream and FFT, the font rasterizer, reading font files, and the threads, sockets and
HTTP requests of the Spotify connection.  It reads the shaders from
`shaders/terrain.vert` and `shaders/terrain.frag` at startup.
