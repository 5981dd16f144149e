//! Balloon formatting: pure functions that render one typed, already-decoded
//! content balloon into a string fragment. Each kind concatenates only the
//! present optional fields, one indented line each, in a fixed field order;
//! a trailing newline is stripped where blocks end with one.
use vstd::prelude::*;

use crate::model::{
    AppPayload, AppStoreBalloon, CheckInKind, CheckInTiming, CollaborationBalloon,
    HandwritingBalloon, MusicBalloon, PlacemarkBalloon, RawMessage, UrlBalloon,
};
use crate::render::Renderer;
use crate::txt::{add_line, line_spec, replace_all, replace_spec, strip_last_newline,
    strip_newline_spec};

verus! {

/// A line for the field when it is present, nothing when it is not.
pub open spec fn opt_line_spec(s: Seq<char>, field: Option<String>, indent: Seq<char>) -> Seq<
    char,
> {
    match field {
        Some(t) => line_spec(s, t@, indent),
        None => s,
    }
}

/// Append a line for the field when it is present.
fn add_opt_line(out: &mut String, field: &Option<String>, indent: &str)
    ensures
        final(out)@ == opt_line_spec(old(out)@, *field, indent@),
{
    match field {
        Some(t) => add_line(out, t.as_str(), indent),
        None => {},
    }
}

/// A url balloon: the url (or the message's own text), the title, the
/// summary.
pub open spec fn format_url_spec(m: RawMessage, b: UrlBalloon, indent: Seq<char>) -> Seq<char> {
    let s1 = match b.url {
        Some(u) => line_spec(Seq::empty(), u@, indent),
        None => match m.text {
            Some(t) => line_spec(Seq::empty(), t@, indent),
            None => Seq::empty(),
        },
    };
    let s2 = opt_line_spec(s1, b.title, indent);
    let s3 = opt_line_spec(s2, b.summary, indent);
    strip_newline_spec(s3)
}

/// A music balloon: track, album, artist, url.
pub open spec fn format_music_spec(b: MusicBalloon, indent: Seq<char>) -> Seq<char> {
    let s1 = opt_line_spec(Seq::empty(), b.track_name, indent);
    let s2 = opt_line_spec(s1, b.album, indent);
    let s3 = opt_line_spec(s2, b.artist, indent);
    opt_line_spec(s3, b.url, indent)
}

/// A collaboration balloon: the app name (or bundle id) as a header, then
/// title and url.
pub open spec fn format_collaboration_spec(b: CollaborationBalloon, indent: Seq<char>) -> Seq<
    char,
> {
    let s0 = indent + (match b.app_name {
        Some(n) => n@,
        None => match b.bundle_id {
            Some(id) => id@,
            None => Seq::<char>::empty(),
        },
    });
    let s1 = if s0.len() > 0 {
        s0 + " message:\n"@
    } else {
        s0
    };
    let s2 = opt_line_spec(s1, b.title, indent);
    let s3 = opt_line_spec(s2, b.url, indent);
    strip_newline_spec(s3)
}

/// An app-store balloon: name, description, platform, genre, url.
pub open spec fn format_app_store_spec(b: AppStoreBalloon, indent: Seq<char>) -> Seq<char> {
    let s1 = opt_line_spec(indent, b.app_name, indent);
    let s2 = opt_line_spec(s1, b.description, indent);
    let s3 = opt_line_spec(s2, b.platform, indent);
    let s4 = opt_line_spec(s3, b.genre, indent);
    let s5 = opt_line_spec(s4, b.url, indent);
    strip_newline_spec(s5)
}

/// A placemark balloon: the place name, the url, then the placemark's
/// fields in their fixed order.
pub open spec fn format_placemark_spec(b: PlacemarkBalloon, indent: Seq<char>) -> Seq<char> {
    let s1 = opt_line_spec(indent, b.place_name, indent);
    let s2 = opt_line_spec(s1, b.url, indent);
    let s3 = opt_line_spec(s2, b.name, indent);
    let s4 = opt_line_spec(s3, b.address, indent);
    let s5 = opt_line_spec(s4, b.state, indent);
    let s6 = opt_line_spec(s5, b.city, indent);
    let s7 = opt_line_spec(s6, b.iso_country_code, indent);
    let s8 = opt_line_spec(s7, b.postal_code, indent);
    let s9 = opt_line_spec(s8, b.country, indent);
    let s10 = opt_line_spec(s9, b.street, indent);
    let s11 = opt_line_spec(s10, b.sub_administrative_area, indent);
    let s12 = opt_line_spec(s11, b.sub_locality, indent);
    strip_newline_spec(s12)
}

/// A hand-written message: the copied image's path when one exists, else the
/// ASCII rendering with the indent inserted before each newline.
pub open spec fn format_handwriting_spec(b: HandwritingBalloon, indent: Seq<char>) -> Seq<char> {
    match b.file_path {
        Some(p) => indent + p@,
        None => replace_spec(b.ascii@, "\n"@, indent + "\n"@),
    }
}

/// A payment balloon: the caption as a transaction header, then the amount
/// text or a fixed fallback.
pub open spec fn format_apple_pay_spec(b: AppPayload, indent: Seq<char>) -> Seq<char> {
    let s0 = indent + (match b.caption {
        Some(c) => c@ + " transaction: "@,
        None => Seq::<char>::empty(),
    });
    s0 + (match b.ldtext {
        Some(l) => l@,
        None => "unknown amount"@,
    })
}

/// A fitness balloon: the app name as a header, then the workout text or a
/// fixed fallback.
pub open spec fn format_fitness_spec(b: AppPayload, indent: Seq<char>) -> Seq<char> {
    let s0 = indent + (match b.app_name {
        Some(n) => n@ + " message: "@,
        None => Seq::<char>::empty(),
    });
    s0 + (match b.ldtext {
        Some(l) => l@,
        None => "unknown workout"@,
    })
}

/// A slideshow balloon: the album text, then the url.
pub open spec fn format_slideshow_spec(b: AppPayload, indent: Seq<char>) -> Seq<char> {
    let s0 = indent + (match b.ldtext {
        Some(l) => "Photo album: "@ + l@,
        None => Seq::<char>::empty(),
    });
    s0 + (match b.url {
        Some(u) => " "@ + u@,
        None => Seq::<char>::empty(),
    })
}

/// A find-my balloon: the app name as a header, then the location text.
pub open spec fn format_find_my_spec(b: AppPayload, indent: Seq<char>) -> Seq<char> {
    let s0 = indent + (match b.app_name {
        Some(n) => n@ + ": "@,
        None => Seq::<char>::empty(),
    });
    s0 + (match b.ldtext {
        Some(l) => " "@ + l@,
        None => Seq::<char>::empty(),
    })
}

/// A check-in balloon: the caption (or a fixed header), then the check-in
/// date under its kind's label.
pub open spec fn format_check_in_spec(
    caption: Option<String>,
    timing: Option<CheckInTiming>,
    indent: Seq<char>,
) -> Seq<char> {
    let s0 = indent + (match caption {
        Some(c) => c@,
        None => "Check In"@,
    });
    s0 + (match timing {
        Some(t) => (match t.kind {
            CheckInKind::Estimated => "\nExpected at "@,
            CheckInKind::Expired => "\nWas expected at "@,
            CheckInKind::Accepted => "\nChecked in at "@,
        }) + t.date_text@,
        None => Seq::<char>::empty(),
    })
}

/// A generic app card: the app name (or bundle id) as a header, then the six
/// caption fields in their fixed order.
pub open spec fn format_generic_app_spec(
    b: AppPayload,
    bundle_id: Seq<char>,
    indent: Seq<char>,
) -> Seq<char> {
    let s0 = indent + (match b.app_name {
        Some(n) => n@,
        None => bundle_id,
    });
    let s1 = if s0.len() > 0 {
        s0 + " message:\n"@
    } else {
        s0
    };
    let s2 = opt_line_spec(s1, b.title, indent);
    let s3 = opt_line_spec(s2, b.subtitle, indent);
    let s4 = opt_line_spec(s3, b.caption, indent);
    let s5 = opt_line_spec(s4, b.subcaption, indent);
    let s6 = opt_line_spec(s5, b.trailing_caption, indent);
    let s7 = opt_line_spec(s6, b.trailing_subcaption, indent);
    strip_newline_spec(s7)
}

impl Renderer {
    /// Render a url balloon.
    pub fn format_url(&self, m: &RawMessage, balloon: &UrlBalloon, indent: &str) -> (out: String)
        ensures
            out@ == format_url_spec(*m, *balloon, indent@),
    {
        let mut out = String::new();
        match &balloon.url {
            Some(u) => add_line(&mut out, u.as_str(), indent),
            None => match &m.text {
                Some(t) => add_line(&mut out, t.as_str(), indent),
                None => {},
            },
        }
        add_opt_line(&mut out, &balloon.title, indent);
        add_opt_line(&mut out, &balloon.summary, indent);
        strip_last_newline(out.as_str())
    }

    /// Render a music balloon.
    pub fn format_music(&self, balloon: &MusicBalloon, indent: &str) -> (out: String)
        ensures
            out@ == format_music_spec(*balloon, indent@),
    {
        let mut out = String::new();
        add_opt_line(&mut out, &balloon.track_name, indent);
        add_opt_line(&mut out, &balloon.album, indent);
        add_opt_line(&mut out, &balloon.artist, indent);
        add_opt_line(&mut out, &balloon.url, indent);
        out
    }

    /// Render a collaboration balloon.
    pub fn format_collaboration(&self, balloon: &CollaborationBalloon, indent: &str) -> (out:
        String)
        ensures
            out@ == format_collaboration_spec(*balloon, indent@),
    {
        let mut out = indent.to_owned();
        match &balloon.app_name {
            Some(n) => out.append(n.as_str()),
            None => match &balloon.bundle_id {
                Some(id) => out.append(id.as_str()),
                None => {},
            },
        }
        if !out.as_str().is_empty() {
            out.append(" message:\n");
        }
        add_opt_line(&mut out, &balloon.title, indent);
        add_opt_line(&mut out, &balloon.url, indent);
        let r = strip_last_newline(out.as_str());
        proof {
            assert(r@ =~= format_collaboration_spec(*balloon, indent@));
        }
        r
    }

    /// Render an app-store balloon.
    pub fn format_app_store(&self, balloon: &AppStoreBalloon, indent: &str) -> (out: String)
        ensures
            out@ == format_app_store_spec(*balloon, indent@),
    {
        let mut out = indent.to_owned();
        add_opt_line(&mut out, &balloon.app_name, indent);
        add_opt_line(&mut out, &balloon.description, indent);
        add_opt_line(&mut out, &balloon.platform, indent);
        add_opt_line(&mut out, &balloon.genre, indent);
        add_opt_line(&mut out, &balloon.url, indent);
        strip_last_newline(out.as_str())
    }

    /// Render a placemark balloon.
    pub fn format_placemark(&self, balloon: &PlacemarkBalloon, indent: &str) -> (out: String)
        ensures
            out@ == format_placemark_spec(*balloon, indent@),
    {
        let mut out = indent.to_owned();
        add_opt_line(&mut out, &balloon.place_name, indent);
        add_opt_line(&mut out, &balloon.url, indent);
        add_opt_line(&mut out, &balloon.name, indent);
        add_opt_line(&mut out, &balloon.address, indent);
        add_opt_line(&mut out, &balloon.state, indent);
        add_opt_line(&mut out, &balloon.city, indent);
        add_opt_line(&mut out, &balloon.iso_country_code, indent);
        add_opt_line(&mut out, &balloon.postal_code, indent);
        add_opt_line(&mut out, &balloon.country, indent);
        add_opt_line(&mut out, &balloon.street, indent);
        add_opt_line(&mut out, &balloon.sub_administrative_area, indent);
        add_opt_line(&mut out, &balloon.sub_locality, indent);
        strip_last_newline(out.as_str())
    }

    /// Render a hand-written message.
    pub fn format_handwriting(&self, balloon: &HandwritingBalloon, indent: &str) -> (out: String)
        ensures
            out@ == format_handwriting_spec(*balloon, indent@),
    {
        match &balloon.file_path {
            Some(p) => {
                let mut out = indent.to_owned();
                out.append(p.as_str());
                out
            },
            None => {
                let mut rep = indent.to_owned();
                rep.append("\n");
                proof {
                    reveal_strlit("\n");
                }
                replace_all(balloon.ascii.as_str(), "\n", rep.as_str())
            },
        }
    }

    /// Render a payment balloon.
    pub fn format_apple_pay(&self, balloon: &AppPayload, indent: &str) -> (out: String)
        ensures
            out@ == format_apple_pay_spec(*balloon, indent@),
    {
        let mut out = indent.to_owned();
        if let Some(caption) = &balloon.caption {
            out.append(caption.as_str());
            out.append(" transaction: ");
        }
        match &balloon.ldtext {
            Some(l) => out.append(l.as_str()),
            None => out.append("unknown amount"),
        }
        proof {
            assert(out@ =~= format_apple_pay_spec(*balloon, indent@));
        }
        out
    }

    /// Render a fitness balloon.
    pub fn format_fitness(&self, balloon: &AppPayload, indent: &str) -> (out: String)
        ensures
            out@ == format_fitness_spec(*balloon, indent@),
    {
        let mut out = indent.to_owned();
        if let Some(app_name) = &balloon.app_name {
            out.append(app_name.as_str());
            out.append(" message: ");
        }
        match &balloon.ldtext {
            Some(l) => out.append(l.as_str()),
            None => out.append("unknown workout"),
        }
        proof {
            assert(out@ =~= format_fitness_spec(*balloon, indent@));
        }
        out
    }

    /// Render a slideshow balloon.
    pub fn format_slideshow(&self, balloon: &AppPayload, indent: &str) -> (out: String)
        ensures
            out@ == format_slideshow_spec(*balloon, indent@),
    {
        let mut out = indent.to_owned();
        if let Some(ldtext) = &balloon.ldtext {
            out.append("Photo album: ");
            out.append(ldtext.as_str());
        }
        if let Some(url) = &balloon.url {
            out.append(" ");
            out.append(url.as_str());
        }
        proof {
            assert(out@ =~= format_slideshow_spec(*balloon, indent@));
        }
        out
    }

    /// Render a find-my balloon.
    pub fn format_find_my(&self, balloon: &AppPayload, indent: &str) -> (out: String)
        ensures
            out@ == format_find_my_spec(*balloon, indent@),
    {
        let mut out = indent.to_owned();
        if let Some(app_name) = &balloon.app_name {
            out.append(app_name.as_str());
            out.append(": ");
        }
        if let Some(ldtext) = &balloon.ldtext {
            out.append(" ");
            out.append(ldtext.as_str());
        }
        proof {
            assert(out@ =~= format_find_my_spec(*balloon, indent@));
        }
        out
    }

    /// Render a check-in balloon.
    pub fn format_check_in(
        &self,
        caption: &Option<String>,
        timing: &Option<CheckInTiming>,
        indent: &str,
    ) -> (out: String)
        ensures
            out@ == format_check_in_spec(*caption, *timing, indent@),
    {
        let mut out = indent.to_owned();
        match caption {
            Some(c) => out.append(c.as_str()),
            None => out.append("Check In"),
        }
        if let Some(t) = timing {
            match t.kind {
                CheckInKind::Estimated => out.append("\nExpected at "),
                CheckInKind::Expired => out.append("\nWas expected at "),
                CheckInKind::Accepted => out.append("\nChecked in at "),
            }
            out.append(t.date_text.as_str());
        }
        proof {
            assert(out@ =~= format_check_in_spec(*caption, *timing, indent@));
        }
        out
    }

    /// Render a generic app card.
    pub fn format_generic_app(&self, balloon: &AppPayload, bundle_id: &str, indent: &str) -> (out:
        String)
        ensures
            out@ == format_generic_app_spec(*balloon, bundle_id@, indent@),
    {
        let mut out = indent.to_owned();
        match &balloon.app_name {
            Some(n) => out.append(n.as_str()),
            None => out.append(bundle_id),
        }
        if !out.as_str().is_empty() {
            out.append(" message:\n");
        }
        add_opt_line(&mut out, &balloon.title, indent);
        add_opt_line(&mut out, &balloon.subtitle, indent);
        add_opt_line(&mut out, &balloon.caption, indent);
        add_opt_line(&mut out, &balloon.subcaption, indent);
        add_opt_line(&mut out, &balloon.trailing_caption, indent);
        add_opt_line(&mut out, &balloon.trailing_subcaption, indent);
        let r = strip_last_newline(out.as_str());
        proof {
            assert(r@ =~= format_generic_app_spec(*balloon, bundle_id@, indent@));
        }
        r
    }
}

} // verus!
