//! A Model Context Protocol server that exposes one tool, `get_ip_info`:
//! a lookup of the machine's public IP address and geolocation record.
//!
//! The protocol core — the JSON-RPC request router, the MCP method
//! dispatcher, and the response encoder — is verified. Reading input
//! lines, writing response lines and the outbound HTTP fetch live in the
//! unverified front end, which hands plain values in and out.

pub mod mcp;
pub mod server;
pub mod wire;

use vstd::prelude::*;
use crate::wire::{find_char, first_index_of, lemma_first_index_found, lemma_first_index_none};

verus! {

/// A decimal digit.
pub open spec fn is_digit(c: char) -> bool {
    48 <= (c as u32) && (c as u32) <= 57
}

/// A non-empty run of decimal digits.
pub open spec fn all_digits(s: Seq<char>) -> bool {
    s.len() > 0 && (forall|k: int| 0 <= k < s.len() ==> is_digit(s[k]))
}

/// A plain signed decimal number: an optional sign, digits, and at
/// most one decimal point with digits on both sides.
pub open spec fn is_decimal_text(s: Seq<char>) -> bool {
    let t = if s.len() > 0 && (s[0] == '-' || s[0] == '+') {
        s.drop_first()
    } else {
        s
    };
    match first_index_of(t, '.') {
        None => all_digits(t),
        Some(p) => all_digits(t.subrange(0, p)) && all_digits(t.subrange(p + 1, t.len() as int)),
    }
}

/// The coordinate pair inside a `"lat,lon"` text: the part before the
/// first comma and the part between the first and the second comma
/// (or the end), provided both are plain decimal numbers.
pub open spec fn spec_location(loc: Seq<char>) -> Option<(Seq<char>, Seq<char>)> {
    match first_index_of(loc, ',') {
        None => None,
        Some(i) => {
            let lat = loc.subrange(0, i);
            let rest = loc.subrange(i + 1, loc.len() as int);
            let lon = match first_index_of(rest, ',') {
                None => rest,
                Some(j) => rest.subrange(0, j),
            };
            if is_decimal_text(lat) && is_decimal_text(lon) {
                Some((lat, lon))
            } else {
                None
            }
        },
    }
}

/// The geolocation record for one public IP address, as the lookup
/// service reports it. `loc` holds the raw `"lat,lon"` text.
pub struct IpInfo {
    pub ip: String,
    pub city: String,
    pub region: String,
    pub country: String,
    pub loc: String,
    pub org: String,
    pub timezone: String,
}

/// Whether the digits of `s` between `from` and `to` are all decimal
/// digits, with at least one of them.
fn digits_range(s: &str, from: usize, to: usize) -> (r: bool)
    requires
        from <= to <= s@.len(),
    ensures
        r == all_digits(s@.subrange(from as int, to as int)),
{
    if from == to {
        return false;
    }
    let mut k: usize = from;
    while k < to
        invariant
            from <= k <= to <= s@.len(),
            forall|t: int| from <= t < k ==> is_digit(s@[t]),
        decreases to - k,
    {
        let c = s.get_char(k);
        if !((c as u32) >= 48 && (c as u32) <= 57) {
            proof {
                assert(s@.subrange(from as int, to as int)[k - from as int] == s@[k as int]);
            }
            return false;
        }
        k = k + 1;
    }
    proof {
        let sub = s@.subrange(from as int, to as int);
        assert forall|t: int| 0 <= t < sub.len() implies is_digit(sub[t]) by {
            assert(sub[t] == s@[t + from as int]);
        }
    }
    true
}

/// Whether `s` is a plain signed decimal number, exactly as
/// `is_decimal_text` says.
pub fn decimal_text(s: &str) -> (r: bool)
    ensures
        r == is_decimal_text(s@),
{
    let n = s.unicode_len();
    let start: usize = if n > 0 {
        let c0 = s.get_char(0);
        if c0 == '-' || c0 == '+' {
            1
        } else {
            0
        }
    } else {
        0
    };
    let ghost t = if s@.len() > 0 && (s@[0] == '-' || s@[0] == '+') {
        s@.drop_first()
    } else {
        s@
    };
    proof {
        assert(t =~= s@.subrange(start as int, n as int));
    }
    let d = find_char(s, '.', start);
    if d < n {
        proof {
            assert(t[d - start as int] == s@[d as int]);
            assert forall|k: int| 0 <= k < d - start as int implies t[k] != '.' by {
                assert(t[k] == s@[k + start as int]);
            }
            lemma_first_index_found(t, '.', d - start as int);
            assert(t.subrange(0, d - start as int) =~= s@.subrange(start as int, d as int));
            assert(t.subrange(d - start as int + 1, t.len() as int) =~= s@.subrange(
                d as int + 1,
                n as int,
            ));
        }
        let ok_int = digits_range(s, start, d);
        let ok_frac = digits_range(s, d + 1, n);
        ok_int && ok_frac
    } else {
        proof {
            assert forall|k: int| 0 <= k < t.len() implies t[k] != '.' by {
                assert(t[k] == s@[k + start as int]);
            }
            lemma_first_index_none(t, '.');
        }
        digits_range(s, start, n)
    }
}

impl IpInfo {
    /// The rendered, human-readable record: one labelled line per
    /// field, with the location line only when the coordinate pair is
    /// well-formed.
    pub open spec fn render_text(self) -> Seq<char> {
        "IP Information:\n  IP Address: "@ + self.ip@ + "\n  City: "@ + self.city@
            + "\n  Region: "@ + self.region@ + "\n  Country: "@ + self.country@ + (
        match spec_location(self.loc@) {
            Some(pair) => "\n  Location: Latitude="@ + pair.0 + ", Longitude="@ + pair.1,
            None => Seq::<char>::empty(),
        }) + "\n  Organization: "@ + self.org@ + "\n  Timezone: "@ + self.timezone@ + "\n"@
    }

    /// The latitude and longitude texts parsed out of `loc`, exactly
    /// as `spec_location` says; a malformed pair is simply absent.
    /// Plain signed decimals (`-?digits`, optionally `.digits`) are
    /// the accepted coordinate form — what the lookup service emits;
    /// exponent and other exotic number forms are treated as
    /// malformed.
    pub fn location(&self) -> (r: Option<(String, String)>)
        ensures
            match (r, spec_location(self.loc@)) {
                (Some(pair), Some(spair)) => pair.0@ == spair.0 && pair.1@ == spair.1,
                (None, None) => true,
                _ => false,
            },
    {
        let l = self.loc.as_str();
        let n = l.unicode_len();
        let i = find_char(l, ',', 0);
        if i == n {
            proof {
                lemma_first_index_none(l@, ',');
            }
            return None;
        }
        proof {
            lemma_first_index_found(l@, ',', i as int);
        }
        let j = find_char(l, ',', i + 1);
        let lat_str = l.substring_char(0, i);
        let lon_str = l.substring_char(i + 1, j);
        proof {
            let rest = l@.subrange(i as int + 1, n as int);
            if j < n {
                assert(rest[j - i - 1] == l@[j as int]);
                assert forall|k: int| 0 <= k < j - i - 1 implies rest[k] != ',' by {
                    assert(rest[k] == l@[k + i + 1]);
                }
                lemma_first_index_found(rest, ',', j - i - 1);
                assert(rest.subrange(0, j - i - 1) =~= l@.subrange(i as int + 1, j as int));
            } else {
                assert forall|k: int| 0 <= k < rest.len() implies rest[k] != ',' by {
                    assert(rest[k] == l@[k + i + 1]);
                }
                lemma_first_index_none(rest, ',');
                assert(rest =~= l@.subrange(i as int + 1, j as int));
            }
        }
        if decimal_text(lat_str) && decimal_text(lon_str) {
            Some((lat_str.to_owned(), lon_str.to_owned()))
        } else {
            None
        }
    }

    /// Renders the record, exactly as `render_text` says.
    pub fn render(&self) -> (out: String)
        ensures
            out@ == self.render_text(),
    {
        let mut out = String::from_str("IP Information:\n  IP Address: ");
        out.append(self.ip.as_str());
        out.append("\n  City: ");
        out.append(self.city.as_str());
        out.append("\n  Region: ");
        out.append(self.region.as_str());
        out.append("\n  Country: ");
        out.append(self.country.as_str());
        match self.location() {
            Some(pair) => {
                out.append("\n  Location: Latitude=");
                out.append(pair.0.as_str());
                out.append(", Longitude=");
                out.append(pair.1.as_str());
            },
            None => {},
        }
        out.append("\n  Organization: ");
        out.append(self.org.as_str());
        out.append("\n  Timezone: ");
        out.append(self.timezone.as_str());
        out.append("\n");
        proof {
            assert(out@ =~= self.render_text());
        }
        out
    }
}

} // verus!
