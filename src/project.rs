//! A Swift package session: its identity, the targets read from the
//! package description, and which events call for regenerating it.
use vstd::prelude::*;
use crate::broadcast::{sent, Broadcast};
use crate::error::{error_text, Error};
use crate::message::{notify_of, MessageLevel, MessageView, StatuslineState, Task};
use crate::event::{base_name, Event, EventKind};
use crate::text::{owned, str_eq};

verus! {

/// What the project knows of one target.
#[derive(Debug, Clone)]
pub struct TargetInfo {
    pub platform: String,
    pub configurations: Vec<String>,
}

/// One entry of the package description's target list, as far as it can
/// be read: its name and its type, where present.
#[derive(Debug, Clone)]
pub struct TargetDecl {
    pub name: Option<String>,
    pub kind: Option<String>,
}

/// The fields of a package description that the session reads.
#[derive(Debug, Clone)]
pub struct PackageInfo {
    pub name: Option<String>,
    pub targets: Option<Vec<TargetDecl>>,
}

pub open spec fn opt_view(o: Option<String>) -> Option<Seq<char>> {
    match o {
        Some(s) => Some(s@),
        None => None,
    }
}

/// A target entry as name and type.
pub open spec fn decl_view(d: TargetDecl) -> (Option<Seq<char>>, Option<Seq<char>>) {
    (opt_view(d.name), opt_view(d.kind))
}

/// The targets that a list of entries names, in order: entries without a
/// name and test targets are left out, and a name counts once.
pub open spec fn listed_targets(decls: Seq<(Option<Seq<char>>, Option<Seq<char>>)>) -> Seq<Seq<char>>
    decreases decls.len(),
{
    if decls.len() == 0 {
        Seq::empty()
    } else {
        let rest = listed_targets(decls.drop_last());
        let d = decls.last();
        if d.0 is Some && d.1 != Some("test"@) && !rest.contains(d.0->0) {
            rest.push(d.0->0)
        } else {
            rest
        }
    }
}

/// Relies on `ToString` of `xcodeproj::pbxproj::PBXTargetPlatform`: its
/// source writes `MacOS` as `macOS`.
#[verifier::external_body]
fn mac_os_platform_name() -> (r: String)
    ensures
        r@ == "macOS"@,
{
    xcodeproj::pbxproj::PBXTargetPlatform::MacOS.to_string()
}

/// A Swift package project.
pub struct SwiftProject {
    name: String,
    root: String,
    targets: Vec<(String, TargetInfo)>,
    watchignore: Vec<String>,
}

impl SwiftProject {
    pub closed spec fn root_spec(&self) -> Seq<char> {
        self.root@
    }

    pub closed spec fn name_spec(&self) -> Seq<char> {
        self.name@
    }

    pub closed spec fn watchignore_spec(&self) -> Seq<Seq<char>> {
        self.watchignore.deep_view()
    }

    /// Target names, in the order the package lists them.
    pub closed spec fn target_names(&self) -> Seq<Seq<char>> {
        self.targets@.map_values(|t: (String, TargetInfo)| t.0@)
    }

    /// Every target is built for macOS in the `Debug` configuration.
    pub closed spec fn targets_wf(&self) -> bool {
        forall|i: int|
            0 <= i < self.targets@.len() ==> {
                &&& (#[trigger] self.targets@[i]).1.platform@ == "macOS"@
                &&& self.targets@[i].1.configurations.deep_view() == seq!["Debug"@]
            }
    }

    /// A session for `root`, with no name and no targets yet. Its clients
    /// are counted by the registry.
    pub fn new(root: &str, watchignore: Vec<String>) -> (r: SwiftProject)
        ensures
            r.root_spec() == root@,
            r.name_spec() == Seq::<char>::empty(),
            r.target_names() == Seq::<Seq<char>>::empty(),
            r.watchignore_spec() == watchignore.deep_view(),
            r.targets_wf(),
    {
        let r = SwiftProject {
            name: String::new(),
            root: owned(root),
            targets: Vec::new(),
            watchignore,
        };
        assert(r.target_names() =~= Seq::<Seq<char>>::empty());
        r
    }

    pub fn root(&self) -> (r: &String)
        ensures
            r@ == self.root_spec(),
    {
        &self.root
    }

    pub fn name(&self) -> (r: &str)
        ensures
            r@ == self.name_spec(),
    {
        self.name.as_str()
    }

    pub fn targets(&self) -> (r: &Vec<(String, TargetInfo)>)
        ensures
            r@.map_values(|t: (String, TargetInfo)| t.0@) == self.target_names(),
    {
        &self.targets
    }

    pub fn watchignore(&self) -> (r: &Vec<String>)
        ensures
            r.deep_view() == self.watchignore_spec(),
    {
        &self.watchignore
    }

    /// Whether an event calls for regenerating the package: a create, a
    /// remove, a rename, or an update of `Package.swift`.
    pub fn should_generate(&self, event: &Event) -> (r: bool)
        ensures
            r == ((event.kind == EventKind::ContentUpdate && base_name(event.path@) == "Package.swift"@)
                || event.kind == EventKind::Create || event.kind == EventKind::Remove || event.kind
                == EventKind::Rename),
    {
        let is_config_file = str_eq(event.file_name(), "Package.swift");
        let is_content_update = event.is_content_update_event();
        (is_content_update && is_config_file) || event.is_create_event() || event.is_remove_event()
            || event.is_rename_event()
    }

    /// A Swift package needs no compile database: nothing to do.
    pub fn update_compile_database(&self) -> (r: Result<(), Error>)
        ensures
            r is Ok,
    {
        Ok(())
    }

    /// Take the name and targets from a package description. A description
    /// without a name or a target list is rejected with `DefinitionParsing`
    /// and leaves the session as it was.
    pub fn update_project_info(&mut self, info: PackageInfo) -> (r: Result<(), Error>)
        requires
            old(self).targets_wf(),
        ensures
            final(self).targets_wf(),
            r is Ok <==> (info.name is Some && info.targets is Some),
            r matches Err(e) ==> e is DefinitionParsing && *final(self) == *old(self),
            r is Ok ==> final(self).name_spec() == info.name->0@ && final(self).target_names()
                == listed_targets(info.targets->0@.map_values(|d: TargetDecl| decl_view(d))),
            final(self).root_spec() == old(self).root_spec(),
            final(self).watchignore_spec() == old(self).watchignore_spec(),
    {
        let name = match info.name {
            Some(n) => n,
            None => {
                return Err(
                    Error::DefinitionParsing(String::from_str("expected package name field is missing!")),
                );
            },
        };
        let decls = match info.targets {
            Some(t) => t,
            None => {
                return Err(
                    Error::DefinitionParsing(String::from_str("expected package target field is missing!")),
                );
            },
        };
        let ghost dv = decls@.map_values(|d: TargetDecl| decl_view(d));
        let mut targets: Vec<(String, TargetInfo)> = Vec::new();
        let mut i: usize = 0;
        while i < decls.len()
            invariant
                i <= decls.len(),
                dv == decls@.map_values(|d: TargetDecl| decl_view(d)),
                targets@.map_values(|t: (String, TargetInfo)| t.0@) == listed_targets(dv.take(i as int)),
                forall|k: int|
                    0 <= k < targets@.len() ==> {
                        &&& (#[trigger] targets@[k]).1.platform@ == "macOS"@
                        &&& targets@[k].1.configurations.deep_view() == seq!["Debug"@]
                    },
            decreases decls.len() - i,
        {
            let ghost names = targets@.map_values(|t: (String, TargetInfo)| t.0@);
            assert(dv.take(i + 1).drop_last() =~= dv.take(i as int));
            assert(dv.take(i + 1).last() == decl_view(decls@[i as int]));
            let d = &decls[i];
            if let Some(n) = &d.name {
                let is_test = match &d.kind {
                    Some(k) => str_eq(k.as_str(), "test"),
                    None => false,
                };
                if !is_test && !contains_name(&targets, n.as_str()) {
                    let mut configurations: Vec<String> = Vec::new();
                    configurations.push(String::from_str("Debug"));
                    assert(configurations.deep_view() =~= seq!["Debug"@]);
                    let info = TargetInfo { platform: mac_os_platform_name(), configurations };
                    targets.push((n.clone(), info));
                    assert(targets@.map_values(|t: (String, TargetInfo)| t.0@) =~= names.push(n@));
                }
            }
            i = i + 1;
        }
        assert(dv.take(decls.len() as int) =~= dv);
        self.name = name;
        self.targets = targets;
        Ok(())
    }
}

/// Whether a target of the list has the name `n`.
fn contains_name(targets: &Vec<(String, TargetInfo)>, n: &str) -> (r: bool)
    ensures
        r == targets@.map_values(|t: (String, TargetInfo)| t.0@).contains(n@),
{
    let ghost names = targets@.map_values(|t: (String, TargetInfo)| t.0@);
    let mut i: usize = 0;
    while i < targets.len()
        invariant
            i <= targets.len(),
            names == targets@.map_values(|t: (String, TargetInfo)| t.0@),
            forall|k: int| 0 <= k < i ==> names[k] != n@,
        decreases targets.len() - i,
    {
        if str_eq(targets[i].0.as_str(), n) {
            assert(names[i as int] == n@);
            return true;
        }
        i = i + 1;
    }
    false
}


/// The status-line message for a state.
pub open spec fn status(st: StatuslineState) -> MessageView {
    MessageView::Execute(Task::UpdateStatusline(st))
}

impl SwiftProject {
    /// Conclude a regeneration. `built` tells whether the generator
    /// succeeded; `info` is the package description read after it. A failed
    /// build is `Generate` and opens the logger; otherwise the description
    /// is taken in. The status line ends in `Success` or `Failure`.
    pub fn finish_generate(&mut self, out: &mut Broadcast, built: bool, info: Result<PackageInfo, Error>) -> (r:
        Result<(), Error>)
        requires
            old(self).targets_wf(),
        ensures
            final(self).targets_wf(),
            r is Ok <==> (built && (info matches Ok(i) && i.name is Some && i.targets is Some)),
            !built ==> r == Err::<(), Error>(Error::Generate),
            built ==> (info matches Err(e) ==> r == Err::<(), Error>(e)),
            built ==> (info matches Ok(i) ==> (r matches Err(e) ==> e is DefinitionParsing)),
            r is Err ==> *final(self) == *old(self),
            r is Ok ==> (info matches Ok(i) && (final(self).name_spec() == i.name->0@ && final(self).target_names()
                == listed_targets(i.targets->0@.map_values(|d: TargetDecl| decl_view(d))))),
            final(self).root_spec() == old(self).root_spec(),
            final(self).watchignore_spec() == old(self).watchignore_spec(),
            final(out).state() == old(out).state(),
            final(out).root_spec() == old(out).root_spec(),
            final(out).address_spec() == old(out).address_spec(),
            final(out).pending() == if r is Ok {
                sent(old(out).state(), old(out).pending(), status(StatuslineState::Success))
            } else if !built {
                sent(
                    old(out).state(),
                    sent(old(out).state(), old(out).pending(), status(StatuslineState::Failure)),
                    MessageView::Execute(Task::OpenLogger),
                )
            } else {
                sent(old(out).state(), old(out).pending(), status(StatuslineState::Failure))
            },
    {
        if !built {
            out.update_statusline(StatuslineState::Failure);
            out.open_logger();
            return Err(Error::Generate);
        }
        let r = match info {
            Ok(i) => self.update_project_info(i),
            Err(e) => Err(e),
        };
        if r.is_ok() {
            out.update_statusline(StatuslineState::Success);
        } else {
            out.update_statusline(StatuslineState::Failure);
        }
        r
    }
}

/// Tell the editor how a regeneration ended: `recompiled`, or the error.
pub fn report_recompile(out: &mut Broadcast, result: &Result<(), Error>)
    ensures
        final(out).state() == old(out).state(),
        final(out).root_spec() == old(out).root_spec(),
        final(out).address_spec() == old(out).address_spec(),
        final(out).pending() == sent(
            old(out).state(),
            old(out).pending(),
            match result {
                Ok(_) => notify_of("recompiled"@, MessageLevel::Info),
                Err(e) => notify_of("Fail to recompile "@ + error_text(*e), MessageLevel::Error),
            },
        ),
{
    match result {
        Ok(_) => out.info("recompiled"),
        Err(e) => {
            let text = String::from_str("Fail to recompile ").concat(e.describe().as_str());
            out.error(text.as_str());
        },
    }
}

} // verus!
