# seo_for_korean

SEO analysis for Korean blog posts, with its rules proved in Verus.

- `src/analyzer/` — the full analysis: the request is normalized (`ctx.rs`),
  thirty checks run in eight groups (`checks/`), and the score and grade are
  computed from their statuses and weights. Keyword matching goes through the
  `KeywordCounter` trait; `RegexCounter` matches the keyword optionally
  followed by one Korean particle.
- `src/basic.rs` — the core analysis of eighteen checks with the regex matcher.
- `src/token_match.rs`, `src/morph.rs`, `src/lindera_counter.rs` — keyword
  matching on morphemes cut by a lindera segmenter (mecab-ko-dic).
- `src/gateway.rs` — the answers of the keyword-occurrence and tokenize
  endpoints.
- `src/text.rs` — trimming, prefix and substring tests, decimal rendering.
- `app/` — the HTTP server (axum): JSON in and out, dictionary loading.

Every public function states its result in its `ensures`; the properties
that span functions (score bounds, the effect of `Na` checks and of better
statuses, grade order, trimming, link counting, occurrence counting) are
public proof functions beside the code they speak of.
