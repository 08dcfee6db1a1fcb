//! The files that every worker guest has.
use crate::json::{
    field_views, json_text, json_views, list, object, pair, Json, JsonView,
};
use vstd::prelude::*;

verus! {

/// A file of the guest, of its root user.
pub open spec fn guest_file(path: Seq<char>, permissions: Seq<char>, content: Seq<char>) -> JsonView {
    JsonView::Object(
        seq![
            ("content"@, JsonView::Text(content)),
            ("owner"@, JsonView::Text("root:root"@)),
            ("path"@, JsonView::Text(path)),
            ("permissions"@, JsonView::Text(permissions)),
        ],
    )
}

fn make_file(path: &str, permissions: &str, content: &str) -> (r: Json)
    ensures
        r@ == guest_file(path@, permissions@, content@),
{
    let mut fields: Vec<(String, Json)> = Vec::new();
    fields.push(pair("content", json_text(content)));
    fields.push(pair("owner", json_text("root:root")));
    fields.push(pair("path", json_text(path)));
    fields.push(pair("permissions", json_text(permissions)));
    assert(field_views(fields@) =~= guest_file(path@, permissions@, content@)->Object_0);
    object(fields)
}

/// The service that checks the owner's lease in the guest.
pub open spec fn watchdog_service() -> Seq<char> {
    "[Unit]\nDescription=Check the NodeHarbor owner lease\n[Service]\nType=oneshot\nExecStart=/usr/bin/python3 /usr/local/lib/nodeharbor/watchdog.py\n"@
}

/// The timer of that service.
pub open spec fn watchdog_timer() -> Seq<char> {
    "[Unit]\nDescription=Check the NodeHarbor owner lease regularly\n[Timer]\nOnActiveSec=15s\nOnUnitActiveSec=15s\nAccuracySec=1s\n[Install]\nWantedBy=timers.target\n"@
}

/// The files of a guest with the given programs.
pub open spec fn files_of(configure: Seq<char>, storage_pool: Seq<char>, watchdog: Seq<char>) -> JsonView {
    JsonView::List(
        seq![
            guest_file("/usr/local/lib/nodeharbor/configure_worker.py"@, "0700"@, configure),
            guest_file("/usr/local/lib/nodeharbor/storage_pool.py"@, "0700"@, storage_pool),
            guest_file("/usr/local/lib/nodeharbor/watchdog.py"@, "0700"@, watchdog),
            guest_file(
                "/etc/systemd/system/nodeharbor-watchdog.service"@,
                "0644"@,
                watchdog_service(),
            ),
            guest_file(
                "/etc/systemd/system/nodeharbor-watchdog.timer"@,
                "0644"@,
                watchdog_timer(),
            ),
        ],
    )
}

/// The files of a guest with the given programs.
pub fn guest_files(configure: &str, storage_pool: &str, watchdog: &str) -> (r: Json)
    ensures
        r@ == files_of(configure@, storage_pool@, watchdog@),
{
    let mut files: Vec<Json> = Vec::new();
    files.push(make_file("/usr/local/lib/nodeharbor/configure_worker.py", "0700", configure));
    files.push(make_file("/usr/local/lib/nodeharbor/storage_pool.py", "0700", storage_pool));
    files.push(make_file("/usr/local/lib/nodeharbor/watchdog.py", "0700", watchdog));
    files.push(
        make_file(
            "/etc/systemd/system/nodeharbor-watchdog.service",
            "0644",
            "[Unit]\nDescription=Check the NodeHarbor owner lease\n[Service]\nType=oneshot\nExecStart=/usr/bin/python3 /usr/local/lib/nodeharbor/watchdog.py\n",
        ),
    );
    files.push(
        make_file(
            "/etc/systemd/system/nodeharbor-watchdog.timer",
            "0644",
            "[Unit]\nDescription=Check the NodeHarbor owner lease regularly\n[Timer]\nOnActiveSec=15s\nOnUnitActiveSec=15s\nAccuracySec=1s\n[Install]\nWantedBy=timers.target\n",
        ),
    );
    assert(json_views(files@) =~= files_of(configure@, storage_pool@, watchdog@)->List_0);
    list(files)
}

} // verus!
