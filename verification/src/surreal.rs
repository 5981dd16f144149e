//! The embedded graph store's decisions: which endpoint to address, which
//! credentials to sign in with, and the schema and graph-materialization
//! statements the driver executes. Connecting and running the statements is
//! I/O and lives with the driver.
use vstd::prelude::*;

verus! {

/// Which backing store a sink addresses.
#[derive(Debug, Clone, Copy)]
pub enum DatabaseType {
    Surreal,
}

/// The fallback network endpoint used when no local store directory can be
/// created.
pub open spec fn fallback_endpoint_spec() -> Seq<char> {
    "ws://localhost:8000"@
}

/// How the embedded store will be addressed: through a directory that still
/// has to be created, or directly through the fallback network endpoint.
pub enum EndpointPlan {
    /// Try to create this directory; the store lives in it.
    CreateDir(String),
    /// Go straight to the fallback network endpoint.
    UseFallback,
}

/// The embedded graph store exporter: plans endpoints and credentials and
/// carries the store's schema and graph statements.
pub struct SurrealDBExporter {}

/// Which plan the configured path value selects: the sentinel "1" selects
/// the default directory, "remote" the fallback endpoint, any other
/// non-empty value its own directory; no value selects the default
/// directory.
pub open spec fn endpoint_plan_spec(dbpath: Option<String>, default_path: String) -> EndpointPlan {
    match dbpath {
        Some(p) => if p@ == "1"@ {
            EndpointPlan::CreateDir(default_path)
        } else if p@ == "remote"@ {
            EndpointPlan::UseFallback
        } else if p@.len() > 0 {
            EndpointPlan::CreateDir(p)
        } else {
            EndpointPlan::UseFallback
        },
        None => EndpointPlan::CreateDir(default_path),
    }
}

/// The endpoint once the directory attempt is decided: the local engine
/// address when the directory was created, the fallback otherwise. The
/// second component says whether the endpoint needs a network sign-in.
pub open spec fn endpoint_after_create_spec(plan: EndpointPlan, created: bool) -> (Seq<char>, bool) {
    match plan {
        EndpointPlan::CreateDir(p) => if created {
            ("rocksdb:"@ + p@, false)
        } else {
            (fallback_endpoint_spec(), true)
        },
        EndpointPlan::UseFallback => (fallback_endpoint_spec(), true),
    }
}

impl SurrealDBExporter {
    /// Plan the endpoint from the configured path value and the default
    /// cache directory.
    pub fn plan_endpoint(dbpath: Option<String>, default_path: String) -> (r: EndpointPlan)
        ensures
            r == endpoint_plan_spec(dbpath, default_path),
    {
        match dbpath {
            Some(p) => {
                let one = String::from_str("1");
                let remote = String::from_str("remote");
                if p.eq(&one) {
                    EndpointPlan::CreateDir(default_path)
                } else if p.eq(&remote) {
                    EndpointPlan::UseFallback
                } else if !p.as_str().is_empty() {
                    EndpointPlan::CreateDir(p)
                } else {
                    EndpointPlan::UseFallback
                }
            },
            None => EndpointPlan::CreateDir(default_path),
        }
    }

    /// The endpoint to connect to, given whether the planned directory
    /// could be created, and whether it needs a network sign-in.
    pub fn endpoint_for(plan: &EndpointPlan, created: bool) -> (r: (String, bool))
        ensures
            r.0@ == endpoint_after_create_spec(*plan, created).0,
            r.1 == endpoint_after_create_spec(*plan, created).1,
    {
        match plan {
            EndpointPlan::CreateDir(p) => {
                if created {
                    let mut endpoint = String::from_str("rocksdb:");
                    endpoint.append(p.as_str());
                    (endpoint, false)
                } else {
                    (String::from_str("ws://localhost:8000"), true)
                }
            },
            EndpointPlan::UseFallback => (String::from_str("ws://localhost:8000"), true),
        }
    }

    /// The sign-in credentials: the configured pair when both values are
    /// set, the fixed defaults otherwise.
    pub fn resolve_credentials(user: Option<String>, pass: Option<String>) -> (r: (String, String))
        ensures
            match (user, pass) {
                (Some(u), Some(p)) => r.0 == u && r.1 == p,
                _ => r.0@ == "root"@ && r.1@ == "root"@,
            },
    {
        match (user, pass) {
            (Some(u), Some(p)) => (u, p),
            _ => (String::from_str("root"), String::from_str("root")),
        }
    }

    /// The store's schema: the six collections — persons, threads,
    /// messages, and the three edge kinds — with uniqueness constraints on
    /// the person's phone number and the thread's grouping key. Every
    /// statement declares with "IF NOT EXISTS", so running the schema setup
    /// twice changes nothing and raises no error.
    pub fn schema_statements() -> (r: Vec<String>)
        ensures
            r@.len() == 8,
            r@[0]@ == "DEFINE TABLE IF NOT EXISTS persons SCHEMALESS;"@,
            r@[1]@ == "DEFINE TABLE IF NOT EXISTS threads SCHEMALESS;"@,
            r@[2]@ == "DEFINE TABLE IF NOT EXISTS messages SCHEMALESS;"@,
            r@[3]@ == "DEFINE TABLE IF NOT EXISTS sent TYPE RELATION;"@,
            r@[4]@ == "DEFINE TABLE IF NOT EXISTS messaged_in TYPE RELATION;"@,
            r@[5]@ == "DEFINE TABLE IF NOT EXISTS in_thread TYPE RELATION;"@,
            r@[6]@
                == "DEFINE INDEX IF NOT EXISTS persons_phone_number ON TABLE persons COLUMNS phone_number UNIQUE;"@,
            r@[7]@
                == "DEFINE INDEX IF NOT EXISTS threads_unique_chat_id ON TABLE threads COLUMNS unique_chat_id UNIQUE;"@,
    {
        let mut out: Vec<String> = Vec::new();
        out.push(String::from_str("DEFINE TABLE IF NOT EXISTS persons SCHEMALESS;"));
        out.push(String::from_str("DEFINE TABLE IF NOT EXISTS threads SCHEMALESS;"));
        out.push(String::from_str("DEFINE TABLE IF NOT EXISTS messages SCHEMALESS;"));
        out.push(String::from_str("DEFINE TABLE IF NOT EXISTS sent TYPE RELATION;"));
        out.push(String::from_str("DEFINE TABLE IF NOT EXISTS messaged_in TYPE RELATION;"));
        out.push(String::from_str("DEFINE TABLE IF NOT EXISTS in_thread TYPE RELATION;"));
        out.push(
            String::from_str(
                "DEFINE INDEX IF NOT EXISTS persons_phone_number ON TABLE persons COLUMNS phone_number UNIQUE;",
            ),
        );
        out.push(
            String::from_str(
                "DEFINE INDEX IF NOT EXISTS threads_unique_chat_id ON TABLE threads COLUMNS unique_chat_id UNIQUE;",
            ),
        );
        out
    }

    /// The graph-materialization script: one transaction that, for each
    /// stored message, looks up or creates its sender person (keyed on
    /// phone number) and its thread (keyed on the grouping key), then adds
    /// the three edges unconditionally, and reports the entity counts. A
    /// failure rolls the whole pass back.
    pub fn graph_script() -> (r: String)
        ensures
            r@
                == "BEGIN TRANSACTION;\nFOR $m IN (SELECT * FROM messages) {\n    LET $p = UPSERT persons:[$m.phone_number] SET phone_number = $m.phone_number, is_me = $m.is_from_me;\n    LET $t = UPSERT threads:[$m.unique_chat_id] SET unique_chat_id = $m.unique_chat_id;\n    RELATE $p->sent->$m;\n    RELATE $p->messaged_in->$t;\n    RELATE $m->in_thread->$t;\n};\nSELECT count() AS thread_count FROM threads GROUP ALL;\nSELECT count() AS person_count FROM persons GROUP ALL;\nSELECT count() AS in_thread_count FROM in_thread GROUP ALL;\nSELECT count() AS sent_count FROM sent GROUP ALL;\nSELECT count() AS message_count FROM messages GROUP ALL;\nSELECT count() AS messaged_in_count FROM messaged_in GROUP ALL;\nCOMMIT TRANSACTION;"@,
    {
        String::from_str(
            "BEGIN TRANSACTION;\nFOR $m IN (SELECT * FROM messages) {\n    LET $p = UPSERT persons:[$m.phone_number] SET phone_number = $m.phone_number, is_me = $m.is_from_me;\n    LET $t = UPSERT threads:[$m.unique_chat_id] SET unique_chat_id = $m.unique_chat_id;\n    RELATE $p->sent->$m;\n    RELATE $p->messaged_in->$t;\n    RELATE $m->in_thread->$t;\n};\nSELECT count() AS thread_count FROM threads GROUP ALL;\nSELECT count() AS person_count FROM persons GROUP ALL;\nSELECT count() AS in_thread_count FROM in_thread GROUP ALL;\nSELECT count() AS sent_count FROM sent GROUP ALL;\nSELECT count() AS message_count FROM messages GROUP ALL;\nSELECT count() AS messaged_in_count FROM messaged_in GROUP ALL;\nCOMMIT TRANSACTION;",
        )
    }
}

} // verus!
