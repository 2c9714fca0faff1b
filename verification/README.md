# wry_web_view

The instance state and the decisions of the `WryWebView` class, a
`WKWebView` subclass on macOS, verified with Verus.

- `src/hit_test.rs`: hit-test modes and the two-step hit-test decision
  (mode first, then the point's location in region-based mode).
- `src/web_view.rs`: the instance variables, the key-equivalent and
  accessory-view decisions, and the table of custom protocol task UUIDs.
- `app/`: the Objective-C class itself (macOS only), the floating-point
  geometry that locates a point, and the glue that locks the state and makes
  the AppKit and Foundation calls.
