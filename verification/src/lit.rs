//! ASCII text pieces of the receiver's HTTP and JSON surface.
//!
//! Each piece exists twice: as a specification-level byte sequence and as
//! an executable append that is proved to write exactly those bytes.

use vstd::prelude::*;

verus! {

/// The bytes of `/subscribe`.
pub open spec fn spec_subscribe() -> Seq<u8> {
    seq![47u8, 115u8, 117u8, 98u8, 115u8, 99u8, 114u8, 105u8, 98u8, 101u8]
}

/// Append the bytes of `/subscribe`.
pub fn push_subscribe(out: &mut Vec<u8>)
    ensures
        final(out)@ == old(out)@ + spec_subscribe(),
{
    out.push(47);
    out.push(115);
    out.push(117);
    out.push(98);
    out.push(115);
    out.push(99);
    out.push(114);
    out.push(105);
    out.push(98);
    out.push(101);
    proof {
        assert(final(out)@ =~= old(out)@ + spec_subscribe());
    }
}

/// The bytes of `/ctlfreq`.
pub open spec fn spec_ctlfreq_path() -> Seq<u8> {
    seq![47u8, 99u8, 116u8, 108u8, 102u8, 114u8, 101u8, 113u8]
}

/// Append the bytes of `/ctlfreq`.
pub fn push_ctlfreq_path(out: &mut Vec<u8>)
    ensures
        final(out)@ == old(out)@ + spec_ctlfreq_path(),
{
    out.push(47);
    out.push(99);
    out.push(116);
    out.push(108);
    out.push(102);
    out.push(114);
    out.push(101);
    out.push(113);
    proof {
        assert(final(out)@ =~= old(out)@ + spec_ctlfreq_path());
    }
}

/// The bytes of `/encrypted`.
pub open spec fn spec_encrypted_path() -> Seq<u8> {
    seq![47u8, 101u8, 110u8, 99u8, 114u8, 121u8, 112u8, 116u8, 101u8, 100u8]
}

/// Append the bytes of `/encrypted`.
pub fn push_encrypted_path(out: &mut Vec<u8>)
    ensures
        final(out)@ == old(out)@ + spec_encrypted_path(),
{
    out.push(47);
    out.push(101);
    out.push(110);
    out.push(99);
    out.push(114);
    out.push(121);
    out.push(112);
    out.push(116);
    out.push(101);
    out.push(100);
    proof {
        assert(final(out)@ =~= old(out)@ + spec_encrypted_path());
    }
}

/// The bytes of `/stats/reset`.
pub open spec fn spec_stats_reset_path() -> Seq<u8> {
    seq![47u8, 115u8, 116u8, 97u8, 116u8, 115u8, 47u8, 114u8, 101u8, 115u8, 101u8, 116u8]
}

/// Append the bytes of `/stats/reset`.
pub fn push_stats_reset_path(out: &mut Vec<u8>)
    ensures
        final(out)@ == old(out)@ + spec_stats_reset_path(),
{
    out.push(47);
    out.push(115);
    out.push(116);
    out.push(97);
    out.push(116);
    out.push(115);
    out.push(47);
    out.push(114);
    out.push(101);
    out.push(115);
    out.push(101);
    out.push(116);
    proof {
        assert(final(out)@ =~= old(out)@ + spec_stats_reset_path());
    }
}

/// The bytes of `HTTP/1.1`.
pub open spec fn spec_http11() -> Seq<u8> {
    seq![72u8, 84u8, 84u8, 80u8, 47u8, 49u8, 46u8, 49u8]
}

/// Append the bytes of `HTTP/1.1`.
pub fn push_http11(out: &mut Vec<u8>)
    ensures
        final(out)@ == old(out)@ + spec_http11(),
{
    out.push(72);
    out.push(84);
    out.push(84);
    out.push(80);
    out.push(47);
    out.push(49);
    out.push(46);
    out.push(49);
    proof {
        assert(final(out)@ =~= old(out)@ + spec_http11());
    }
}

/// The bytes of `GET`.
pub open spec fn spec_get() -> Seq<u8> {
    seq![71u8, 69u8, 84u8]
}

/// Append the bytes of `GET`.
pub fn push_get(out: &mut Vec<u8>)
    ensures
        final(out)@ == old(out)@ + spec_get(),
{
    out.push(71);
    out.push(69);
    out.push(84);
    proof {
        assert(final(out)@ =~= old(out)@ + spec_get());
    }
}

/// The bytes of `PUT`.
pub open spec fn spec_put() -> Seq<u8> {
    seq![80u8, 85u8, 84u8]
}

/// Append the bytes of `PUT`.
pub fn push_put(out: &mut Vec<u8>)
    ensures
        final(out)@ == old(out)@ + spec_put(),
{
    out.push(80);
    out.push(85);
    out.push(84);
    proof {
        assert(final(out)@ =~= old(out)@ + spec_put());
    }
}

/// The bytes of `OPTIONS`.
pub open spec fn spec_options() -> Seq<u8> {
    seq![79u8, 80u8, 84u8, 73u8, 79u8, 78u8, 83u8]
}

/// Append the bytes of `OPTIONS`.
pub fn push_options(out: &mut Vec<u8>)
    ensures
        final(out)@ == old(out)@ + spec_options(),
{
    out.push(79);
    out.push(80);
    out.push(84);
    out.push(73);
    out.push(79);
    out.push(78);
    out.push(83);
    proof {
        assert(final(out)@ =~= old(out)@ + spec_options());
    }
}

/// The bytes of `{"event":"`.
pub open spec fn spec_ev_open() -> Seq<u8> {
    seq![123u8, 34u8, 101u8, 118u8, 101u8, 110u8, 116u8, 34u8, 58u8, 34u8]
}

/// Append the bytes of `{"event":"`.
pub fn push_ev_open(out: &mut Vec<u8>)
    ensures
        final(out)@ == old(out)@ + spec_ev_open(),
{
    out.push(123);
    out.push(34);
    out.push(101);
    out.push(118);
    out.push(101);
    out.push(110);
    out.push(116);
    out.push(34);
    out.push(58);
    out.push(34);
    proof {
        assert(final(out)@ =~= old(out)@ + spec_ev_open());
    }
}

/// The bytes of `","payload":`.
pub open spec fn spec_ev_payload() -> Seq<u8> {
    seq![34u8, 44u8, 34u8, 112u8, 97u8, 121u8, 108u8, 111u8, 97u8, 100u8, 34u8, 58u8]
}

/// Append the bytes of `","payload":`.
pub fn push_ev_payload(out: &mut Vec<u8>)
    ensures
        final(out)@ == old(out)@ + spec_ev_payload(),
{
    out.push(34);
    out.push(44);
    out.push(34);
    out.push(112);
    out.push(97);
    out.push(121);
    out.push(108);
    out.push(111);
    out.push(97);
    out.push(100);
    out.push(34);
    out.push(58);
    proof {
        assert(final(out)@ =~= old(out)@ + spec_ev_payload());
    }
}

/// The bytes of `ctlFreq`.
pub open spec fn spec_tag_ctlfreq() -> Seq<u8> {
    seq![99u8, 116u8, 108u8, 70u8, 114u8, 101u8, 113u8]
}

/// Append the bytes of `ctlFreq`.
pub fn push_tag_ctlfreq(out: &mut Vec<u8>)
    ensures
        final(out)@ == old(out)@ + spec_tag_ctlfreq(),
{
    out.push(99);
    out.push(116);
    out.push(108);
    out.push(70);
    out.push(114);
    out.push(101);
    out.push(113);
    proof {
        assert(final(out)@ =~= old(out)@ + spec_tag_ctlfreq());
    }
}

/// The bytes of `curFreq`.
pub open spec fn spec_tag_curfreq() -> Seq<u8> {
    seq![99u8, 117u8, 114u8, 70u8, 114u8, 101u8, 113u8]
}

/// Append the bytes of `curFreq`.
pub fn push_tag_curfreq(out: &mut Vec<u8>)
    ensures
        final(out)@ == old(out)@ + spec_tag_curfreq(),
{
    out.push(99);
    out.push(117);
    out.push(114);
    out.push(70);
    out.push(114);
    out.push(101);
    out.push(113);
    proof {
        assert(final(out)@ =~= old(out)@ + spec_tag_curfreq());
    }
}

/// The bytes of `talkGroup`.
pub open spec fn spec_tag_talkgroup() -> Seq<u8> {
    seq![116u8, 97u8, 108u8, 107u8, 71u8, 114u8, 111u8, 117u8, 112u8]
}

/// Append the bytes of `talkGroup`.
pub fn push_tag_talkgroup(out: &mut Vec<u8>)
    ensures
        final(out)@ == old(out)@ + spec_tag_talkgroup(),
{
    out.push(116);
    out.push(97);
    out.push(108);
    out.push(107);
    out.push(71);
    out.push(114);
    out.push(111);
    out.push(117);
    out.push(112);
    proof {
        assert(final(out)@ =~= old(out)@ + spec_tag_talkgroup());
    }
}

/// The bytes of `sigPower`.
pub open spec fn spec_tag_sigpower() -> Seq<u8> {
    seq![115u8, 105u8, 103u8, 80u8, 111u8, 119u8, 101u8, 114u8]
}

/// Append the bytes of `sigPower`.
pub fn push_tag_sigpower(out: &mut Vec<u8>)
    ensures
        final(out)@ == old(out)@ + spec_tag_sigpower(),
{
    out.push(115);
    out.push(105);
    out.push(103);
    out.push(80);
    out.push(111);
    out.push(119);
    out.push(101);
    out.push(114);
    proof {
        assert(final(out)@ =~= old(out)@ + spec_tag_sigpower());
    }
}

/// The bytes of `rfssStatus`.
pub open spec fn spec_tag_rfss() -> Seq<u8> {
    seq![114u8, 102u8, 115u8, 115u8, 83u8, 116u8, 97u8, 116u8, 117u8, 115u8]
}

/// Append the bytes of `rfssStatus`.
pub fn push_tag_rfss(out: &mut Vec<u8>)
    ensures
        final(out)@ == old(out)@ + spec_tag_rfss(),
{
    out.push(114);
    out.push(102);
    out.push(115);
    out.push(115);
    out.push(83);
    out.push(116);
    out.push(97);
    out.push(116);
    out.push(117);
    out.push(115);
    proof {
        assert(final(out)@ =~= old(out)@ + spec_tag_rfss());
    }
}

/// The bytes of `networkStatus`.
pub open spec fn spec_tag_net() -> Seq<u8> {
    seq![110u8, 101u8, 116u8, 119u8, 111u8, 114u8, 107u8, 83u8, 116u8, 97u8, 116u8, 117u8, 115u8]
}

/// Append the bytes of `networkStatus`.
pub fn push_tag_net(out: &mut Vec<u8>)
    ensures
        final(out)@ == old(out)@ + spec_tag_net(),
{
    out.push(110);
    out.push(101);
    out.push(116);
    out.push(119);
    out.push(111);
    out.push(114);
    out.push(107);
    out.push(83);
    out.push(116);
    out.push(97);
    out.push(116);
    out.push(117);
    out.push(115);
    proof {
        assert(final(out)@ =~= old(out)@ + spec_tag_net());
    }
}

/// The bytes of `altControl`.
pub open spec fn spec_tag_alt() -> Seq<u8> {
    seq![97u8, 108u8, 116u8, 67u8, 111u8, 110u8, 116u8, 114u8, 111u8, 108u8]
}

/// Append the bytes of `altControl`.
pub fn push_tag_alt(out: &mut Vec<u8>)
    ensures
        final(out)@ == old(out)@ + spec_tag_alt(),
{
    out.push(97);
    out.push(108);
    out.push(116);
    out.push(67);
    out.push(111);
    out.push(110);
    out.push(116);
    out.push(114);
    out.push(111);
    out.push(108);
    proof {
        assert(final(out)@ =~= old(out)@ + spec_tag_alt());
    }
}

/// The bytes of `adjacentSite`.
pub open spec fn spec_tag_adjacent() -> Seq<u8> {
    seq![97u8, 100u8, 106u8, 97u8, 99u8, 101u8, 110u8, 116u8, 83u8, 105u8, 116u8, 101u8]
}

/// Append the bytes of `adjacentSite`.
pub fn push_tag_adjacent(out: &mut Vec<u8>)
    ensures
        final(out)@ == old(out)@ + spec_tag_adjacent(),
{
    out.push(97);
    out.push(100);
    out.push(106);
    out.push(97);
    out.push(99);
    out.push(101);
    out.push(110);
    out.push(116);
    out.push(83);
    out.push(105);
    out.push(116);
    out.push(101);
    proof {
        assert(final(out)@ =~= old(out)@ + spec_tag_adjacent());
    }
}

/// The bytes of `srcUnit`.
pub open spec fn spec_tag_srcunit() -> Seq<u8> {
    seq![115u8, 114u8, 99u8, 85u8, 110u8, 105u8, 116u8]
}

/// Append the bytes of `srcUnit`.
pub fn push_tag_srcunit(out: &mut Vec<u8>)
    ensures
        final(out)@ == old(out)@ + spec_tag_srcunit(),
{
    out.push(115);
    out.push(114);
    out.push(99);
    out.push(85);
    out.push(110);
    out.push(105);
    out.push(116);
    proof {
        assert(final(out)@ =~= old(out)@ + spec_tag_srcunit());
    }
}

/// The bytes of `updateEncrypted`.
pub open spec fn spec_tag_encrypted() -> Seq<u8> {
    seq![117u8, 112u8, 100u8, 97u8, 116u8, 101u8, 69u8, 110u8, 99u8, 114u8, 121u8, 112u8, 116u8, 101u8, 100u8]
}

/// Append the bytes of `updateEncrypted`.
pub fn push_tag_encrypted(out: &mut Vec<u8>)
    ensures
        final(out)@ == old(out)@ + spec_tag_encrypted(),
{
    out.push(117);
    out.push(112);
    out.push(100);
    out.push(97);
    out.push(116);
    out.push(101);
    out.push(69);
    out.push(110);
    out.push(99);
    out.push(114);
    out.push(121);
    out.push(112);
    out.push(116);
    out.push(101);
    out.push(100);
    proof {
        assert(final(out)@ =~= old(out)@ + spec_tag_encrypted());
    }
}

/// The bytes of `updateStats`.
pub open spec fn spec_tag_stats() -> Seq<u8> {
    seq![117u8, 112u8, 100u8, 97u8, 116u8, 101u8, 83u8, 116u8, 97u8, 116u8, 115u8]
}

/// Append the bytes of `updateStats`.
pub fn push_tag_stats(out: &mut Vec<u8>)
    ensures
        final(out)@ == old(out)@ + spec_tag_stats(),
{
    out.push(117);
    out.push(112);
    out.push(100);
    out.push(97);
    out.push(116);
    out.push(101);
    out.push(83);
    out.push(116);
    out.push(97);
    out.push(116);
    out.push(115);
    proof {
        assert(final(out)@ =~= old(out)@ + spec_tag_stats());
    }
}

/// The bytes of `locReg`.
pub open spec fn spec_tag_locreg() -> Seq<u8> {
    seq![108u8, 111u8, 99u8, 82u8, 101u8, 103u8]
}

/// Append the bytes of `locReg`.
pub fn push_tag_locreg(out: &mut Vec<u8>)
    ensures
        final(out)@ == old(out)@ + spec_tag_locreg(),
{
    out.push(108);
    out.push(111);
    out.push(99);
    out.push(82);
    out.push(101);
    out.push(103);
    proof {
        assert(final(out)@ =~= old(out)@ + spec_tag_locreg());
    }
}

/// The bytes of `unitReg`.
pub open spec fn spec_tag_unitreg() -> Seq<u8> {
    seq![117u8, 110u8, 105u8, 116u8, 82u8, 101u8, 103u8]
}

/// Append the bytes of `unitReg`.
pub fn push_tag_unitreg(out: &mut Vec<u8>)
    ensures
        final(out)@ == old(out)@ + spec_tag_unitreg(),
{
    out.push(117);
    out.push(110);
    out.push(105);
    out.push(116);
    out.push(82);
    out.push(101);
    out.push(103);
    proof {
        assert(final(out)@ =~= old(out)@ + spec_tag_unitreg());
    }
}

/// The bytes of `unitDereg`.
pub open spec fn spec_tag_unitdereg() -> Seq<u8> {
    seq![117u8, 110u8, 105u8, 116u8, 68u8, 101u8, 114u8, 101u8, 103u8]
}

/// Append the bytes of `unitDereg`.
pub fn push_tag_unitdereg(out: &mut Vec<u8>)
    ensures
        final(out)@ == old(out)@ + spec_tag_unitdereg(),
{
    out.push(117);
    out.push(110);
    out.push(105);
    out.push(116);
    out.push(68);
    out.push(101);
    out.push(114);
    out.push(101);
    out.push(103);
    proof {
        assert(final(out)@ =~= old(out)@ + spec_tag_unitdereg());
    }
}

/// The bytes of `{"area":`.
pub open spec fn spec_k_area() -> Seq<u8> {
    seq![123u8, 34u8, 97u8, 114u8, 101u8, 97u8, 34u8, 58u8]
}

/// Append the bytes of `{"area":`.
pub fn push_k_area(out: &mut Vec<u8>)
    ensures
        final(out)@ == old(out)@ + spec_k_area(),
{
    out.push(123);
    out.push(34);
    out.push(97);
    out.push(114);
    out.push(101);
    out.push(97);
    out.push(34);
    out.push(58);
    proof {
        assert(final(out)@ =~= old(out)@ + spec_k_area());
    }
}

/// The bytes of `,"system":`.
pub open spec fn spec_k_system() -> Seq<u8> {
    seq![44u8, 34u8, 115u8, 121u8, 115u8, 116u8, 101u8, 109u8, 34u8, 58u8]
}

/// Append the bytes of `,"system":`.
pub fn push_k_system(out: &mut Vec<u8>)
    ensures
        final(out)@ == old(out)@ + spec_k_system(),
{
    out.push(44);
    out.push(34);
    out.push(115);
    out.push(121);
    out.push(115);
    out.push(116);
    out.push(101);
    out.push(109);
    out.push(34);
    out.push(58);
    proof {
        assert(final(out)@ =~= old(out)@ + spec_k_system());
    }
}

/// The bytes of `,"rfss":`.
pub open spec fn spec_k_rfss() -> Seq<u8> {
    seq![44u8, 34u8, 114u8, 102u8, 115u8, 115u8, 34u8, 58u8]
}

/// Append the bytes of `,"rfss":`.
pub fn push_k_rfss(out: &mut Vec<u8>)
    ensures
        final(out)@ == old(out)@ + spec_k_rfss(),
{
    out.push(44);
    out.push(34);
    out.push(114);
    out.push(102);
    out.push(115);
    out.push(115);
    out.push(34);
    out.push(58);
    proof {
        assert(final(out)@ =~= old(out)@ + spec_k_rfss());
    }
}

/// The bytes of `,"site":`.
pub open spec fn spec_k_site() -> Seq<u8> {
    seq![44u8, 34u8, 115u8, 105u8, 116u8, 101u8, 34u8, 58u8]
}

/// Append the bytes of `,"site":`.
pub fn push_k_site(out: &mut Vec<u8>)
    ensures
        final(out)@ == old(out)@ + spec_k_site(),
{
    out.push(44);
    out.push(34);
    out.push(115);
    out.push(105);
    out.push(116);
    out.push(101);
    out.push(34);
    out.push(58);
    proof {
        assert(final(out)@ =~= old(out)@ + spec_k_site());
    }
}

/// The bytes of `,"wacn":`.
pub open spec fn spec_k_wacn() -> Seq<u8> {
    seq![44u8, 34u8, 119u8, 97u8, 99u8, 110u8, 34u8, 58u8]
}

/// Append the bytes of `,"wacn":`.
pub fn push_k_wacn(out: &mut Vec<u8>)
    ensures
        final(out)@ == old(out)@ + spec_k_wacn(),
{
    out.push(44);
    out.push(34);
    out.push(119);
    out.push(97);
    out.push(99);
    out.push(110);
    out.push(34);
    out.push(58);
    proof {
        assert(final(out)@ =~= old(out)@ + spec_k_wacn());
    }
}

/// The bytes of `,"freq":`.
pub open spec fn spec_k_freq() -> Seq<u8> {
    seq![44u8, 34u8, 102u8, 114u8, 101u8, 113u8, 34u8, 58u8]
}

/// Append the bytes of `,"freq":`.
pub fn push_k_freq(out: &mut Vec<u8>)
    ensures
        final(out)@ == old(out)@ + spec_k_freq(),
{
    out.push(44);
    out.push(34);
    out.push(102);
    out.push(114);
    out.push(101);
    out.push(113);
    out.push(34);
    out.push(58);
    proof {
        assert(final(out)@ =~= old(out)@ + spec_k_freq());
    }
}

/// The bytes of `,"unit":`.
pub open spec fn spec_k_unit() -> Seq<u8> {
    seq![44u8, 34u8, 117u8, 110u8, 105u8, 116u8, 34u8, 58u8]
}

/// Append the bytes of `,"unit":`.
pub fn push_k_unit(out: &mut Vec<u8>)
    ensures
        final(out)@ == old(out)@ + spec_k_unit(),
{
    out.push(44);
    out.push(34);
    out.push(117);
    out.push(110);
    out.push(105);
    out.push(116);
    out.push(34);
    out.push(58);
    proof {
        assert(final(out)@ =~= old(out)@ + spec_k_unit());
    }
}

/// The bytes of `{"response":`.
pub open spec fn spec_k_response() -> Seq<u8> {
    seq![123u8, 34u8, 114u8, 101u8, 115u8, 112u8, 111u8, 110u8, 115u8, 101u8, 34u8, 58u8]
}

/// Append the bytes of `{"response":`.
pub fn push_k_response(out: &mut Vec<u8>)
    ensures
        final(out)@ == old(out)@ + spec_k_response(),
{
    out.push(123);
    out.push(34);
    out.push(114);
    out.push(101);
    out.push(115);
    out.push(112);
    out.push(111);
    out.push(110);
    out.push(115);
    out.push(101);
    out.push(34);
    out.push(58);
    proof {
        assert(final(out)@ =~= old(out)@ + spec_k_response());
    }
}

/// The bytes of `,"unitId":`.
pub open spec fn spec_k_unit_id() -> Seq<u8> {
    seq![44u8, 34u8, 117u8, 110u8, 105u8, 116u8, 73u8, 100u8, 34u8, 58u8]
}

/// Append the bytes of `,"unitId":`.
pub fn push_k_unit_id(out: &mut Vec<u8>)
    ensures
        final(out)@ == old(out)@ + spec_k_unit_id(),
{
    out.push(44);
    out.push(34);
    out.push(117);
    out.push(110);
    out.push(105);
    out.push(116);
    out.push(73);
    out.push(100);
    out.push(34);
    out.push(58);
    proof {
        assert(final(out)@ =~= old(out)@ + spec_k_unit_id());
    }
}

/// The bytes of `,"unitAddr":`.
pub open spec fn spec_k_unit_addr() -> Seq<u8> {
    seq![44u8, 34u8, 117u8, 110u8, 105u8, 116u8, 65u8, 100u8, 100u8, 114u8, 34u8, 58u8]
}

/// Append the bytes of `,"unitAddr":`.
pub fn push_k_unit_addr(out: &mut Vec<u8>)
    ensures
        final(out)@ == old(out)@ + spec_k_unit_addr(),
{
    out.push(44);
    out.push(34);
    out.push(117);
    out.push(110);
    out.push(105);
    out.push(116);
    out.push(65);
    out.push(100);
    out.push(100);
    out.push(114);
    out.push(34);
    out.push(58);
    proof {
        assert(final(out)@ =~= old(out)@ + spec_k_unit_addr());
    }
}

/// The bytes of `{"wacn":`.
pub open spec fn spec_k_wacn_open() -> Seq<u8> {
    seq![123u8, 34u8, 119u8, 97u8, 99u8, 110u8, 34u8, 58u8]
}

/// Append the bytes of `{"wacn":`.
pub fn push_k_wacn_open(out: &mut Vec<u8>)
    ensures
        final(out)@ == old(out)@ + spec_k_wacn_open(),
{
    out.push(123);
    out.push(34);
    out.push(119);
    out.push(97);
    out.push(99);
    out.push(110);
    out.push(34);
    out.push(58);
    proof {
        assert(final(out)@ =~= old(out)@ + spec_k_wacn_open());
    }
}

/// The bytes of `{"rfss":`.
pub open spec fn spec_k_rfss_open() -> Seq<u8> {
    seq![123u8, 34u8, 114u8, 102u8, 115u8, 115u8, 34u8, 58u8]
}

/// Append the bytes of `{"rfss":`.
pub fn push_k_rfss_open(out: &mut Vec<u8>)
    ensures
        final(out)@ == old(out)@ + spec_k_rfss_open(),
{
    out.push(123);
    out.push(34);
    out.push(114);
    out.push(102);
    out.push(115);
    out.push(115);
    out.push(34);
    out.push(58);
    proof {
        assert(final(out)@ =~= old(out)@ + spec_k_rfss_open());
    }
}

/// The bytes of `{"bch":`.
pub open spec fn spec_s_bch() -> Seq<u8> {
    seq![123u8, 34u8, 98u8, 99u8, 104u8, 34u8, 58u8]
}

/// Append the bytes of `{"bch":`.
pub fn push_s_bch(out: &mut Vec<u8>)
    ensures
        final(out)@ == old(out)@ + spec_s_bch(),
{
    out.push(123);
    out.push(34);
    out.push(98);
    out.push(99);
    out.push(104);
    out.push(34);
    out.push(58);
    proof {
        assert(final(out)@ =~= old(out)@ + spec_s_bch());
    }
}

/// The bytes of `,"cyclic":`.
pub open spec fn spec_s_cyclic() -> Seq<u8> {
    seq![44u8, 34u8, 99u8, 121u8, 99u8, 108u8, 105u8, 99u8, 34u8, 58u8]
}

/// Append the bytes of `,"cyclic":`.
pub fn push_s_cyclic(out: &mut Vec<u8>)
    ensures
        final(out)@ == old(out)@ + spec_s_cyclic(),
{
    out.push(44);
    out.push(34);
    out.push(99);
    out.push(121);
    out.push(99);
    out.push(108);
    out.push(105);
    out.push(99);
    out.push(34);
    out.push(58);
    proof {
        assert(final(out)@ =~= old(out)@ + spec_s_cyclic());
    }
}

/// The bytes of `,"golayStd":`.
pub open spec fn spec_s_golay_std() -> Seq<u8> {
    seq![44u8, 34u8, 103u8, 111u8, 108u8, 97u8, 121u8, 83u8, 116u8, 100u8, 34u8, 58u8]
}

/// Append the bytes of `,"golayStd":`.
pub fn push_s_golay_std(out: &mut Vec<u8>)
    ensures
        final(out)@ == old(out)@ + spec_s_golay_std(),
{
    out.push(44);
    out.push(34);
    out.push(103);
    out.push(111);
    out.push(108);
    out.push(97);
    out.push(121);
    out.push(83);
    out.push(116);
    out.push(100);
    out.push(34);
    out.push(58);
    proof {
        assert(final(out)@ =~= old(out)@ + spec_s_golay_std());
    }
}

/// The bytes of `,"golayExt":`.
pub open spec fn spec_s_golay_ext() -> Seq<u8> {
    seq![44u8, 34u8, 103u8, 111u8, 108u8, 97u8, 121u8, 69u8, 120u8, 116u8, 34u8, 58u8]
}

/// Append the bytes of `,"golayExt":`.
pub fn push_s_golay_ext(out: &mut Vec<u8>)
    ensures
        final(out)@ == old(out)@ + spec_s_golay_ext(),
{
    out.push(44);
    out.push(34);
    out.push(103);
    out.push(111);
    out.push(108);
    out.push(97);
    out.push(121);
    out.push(69);
    out.push(120);
    out.push(116);
    out.push(34);
    out.push(58);
    proof {
        assert(final(out)@ =~= old(out)@ + spec_s_golay_ext());
    }
}

/// The bytes of `,"golayShort":`.
pub open spec fn spec_s_golay_short() -> Seq<u8> {
    seq![44u8, 34u8, 103u8, 111u8, 108u8, 97u8, 121u8, 83u8, 104u8, 111u8, 114u8, 116u8, 34u8, 58u8]
}

/// Append the bytes of `,"golayShort":`.
pub fn push_s_golay_short(out: &mut Vec<u8>)
    ensures
        final(out)@ == old(out)@ + spec_s_golay_short(),
{
    out.push(44);
    out.push(34);
    out.push(103);
    out.push(111);
    out.push(108);
    out.push(97);
    out.push(121);
    out.push(83);
    out.push(104);
    out.push(111);
    out.push(114);
    out.push(116);
    out.push(34);
    out.push(58);
    proof {
        assert(final(out)@ =~= old(out)@ + spec_s_golay_short());
    }
}

/// The bytes of `,"hammingStd":`.
pub open spec fn spec_s_hamming_std() -> Seq<u8> {
    seq![44u8, 34u8, 104u8, 97u8, 109u8, 109u8, 105u8, 110u8, 103u8, 83u8, 116u8, 100u8, 34u8, 58u8]
}

/// Append the bytes of `,"hammingStd":`.
pub fn push_s_hamming_std(out: &mut Vec<u8>)
    ensures
        final(out)@ == old(out)@ + spec_s_hamming_std(),
{
    out.push(44);
    out.push(34);
    out.push(104);
    out.push(97);
    out.push(109);
    out.push(109);
    out.push(105);
    out.push(110);
    out.push(103);
    out.push(83);
    out.push(116);
    out.push(100);
    out.push(34);
    out.push(58);
    proof {
        assert(final(out)@ =~= old(out)@ + spec_s_hamming_std());
    }
}

/// The bytes of `,"hammingShort":`.
pub open spec fn spec_s_hamming_short() -> Seq<u8> {
    seq![44u8, 34u8, 104u8, 97u8, 109u8, 109u8, 105u8, 110u8, 103u8, 83u8, 104u8, 111u8, 114u8, 116u8, 34u8, 58u8]
}

/// Append the bytes of `,"hammingShort":`.
pub fn push_s_hamming_short(out: &mut Vec<u8>)
    ensures
        final(out)@ == old(out)@ + spec_s_hamming_short(),
{
    out.push(44);
    out.push(34);
    out.push(104);
    out.push(97);
    out.push(109);
    out.push(109);
    out.push(105);
    out.push(110);
    out.push(103);
    out.push(83);
    out.push(104);
    out.push(111);
    out.push(114);
    out.push(116);
    out.push(34);
    out.push(58);
    proof {
        assert(final(out)@ =~= old(out)@ + spec_s_hamming_short());
    }
}

/// The bytes of `,"rsShort":`.
pub open spec fn spec_s_rs_short() -> Seq<u8> {
    seq![44u8, 34u8, 114u8, 115u8, 83u8, 104u8, 111u8, 114u8, 116u8, 34u8, 58u8]
}

/// Append the bytes of `,"rsShort":`.
pub fn push_s_rs_short(out: &mut Vec<u8>)
    ensures
        final(out)@ == old(out)@ + spec_s_rs_short(),
{
    out.push(44);
    out.push(34);
    out.push(114);
    out.push(115);
    out.push(83);
    out.push(104);
    out.push(111);
    out.push(114);
    out.push(116);
    out.push(34);
    out.push(58);
    proof {
        assert(final(out)@ =~= old(out)@ + spec_s_rs_short());
    }
}

/// The bytes of `,"rsMed":`.
pub open spec fn spec_s_rs_med() -> Seq<u8> {
    seq![44u8, 34u8, 114u8, 115u8, 77u8, 101u8, 100u8, 34u8, 58u8]
}

/// Append the bytes of `,"rsMed":`.
pub fn push_s_rs_med(out: &mut Vec<u8>)
    ensures
        final(out)@ == old(out)@ + spec_s_rs_med(),
{
    out.push(44);
    out.push(34);
    out.push(114);
    out.push(115);
    out.push(77);
    out.push(101);
    out.push(100);
    out.push(34);
    out.push(58);
    proof {
        assert(final(out)@ =~= old(out)@ + spec_s_rs_med());
    }
}

/// The bytes of `,"rsLong":`.
pub open spec fn spec_s_rs_long() -> Seq<u8> {
    seq![44u8, 34u8, 114u8, 115u8, 76u8, 111u8, 110u8, 103u8, 34u8, 58u8]
}

/// Append the bytes of `,"rsLong":`.
pub fn push_s_rs_long(out: &mut Vec<u8>)
    ensures
        final(out)@ == old(out)@ + spec_s_rs_long(),
{
    out.push(44);
    out.push(34);
    out.push(114);
    out.push(115);
    out.push(76);
    out.push(111);
    out.push(110);
    out.push(103);
    out.push(34);
    out.push(58);
    proof {
        assert(final(out)@ =~= old(out)@ + spec_s_rs_long());
    }
}

/// The bytes of `,"viterbiDibit":`.
pub open spec fn spec_s_viterbi_dibit() -> Seq<u8> {
    seq![44u8, 34u8, 118u8, 105u8, 116u8, 101u8, 114u8, 98u8, 105u8, 68u8, 105u8, 98u8, 105u8, 116u8, 34u8, 58u8]
}

/// Append the bytes of `,"viterbiDibit":`.
pub fn push_s_viterbi_dibit(out: &mut Vec<u8>)
    ensures
        final(out)@ == old(out)@ + spec_s_viterbi_dibit(),
{
    out.push(44);
    out.push(34);
    out.push(118);
    out.push(105);
    out.push(116);
    out.push(101);
    out.push(114);
    out.push(98);
    out.push(105);
    out.push(68);
    out.push(105);
    out.push(98);
    out.push(105);
    out.push(116);
    out.push(34);
    out.push(58);
    proof {
        assert(final(out)@ =~= old(out)@ + spec_s_viterbi_dibit());
    }
}

/// The bytes of `,"viterbiTribit":`.
pub open spec fn spec_s_viterbi_tribit() -> Seq<u8> {
    seq![44u8, 34u8, 118u8, 105u8, 116u8, 101u8, 114u8, 98u8, 105u8, 84u8, 114u8, 105u8, 98u8, 105u8, 116u8, 34u8, 58u8]
}

/// Append the bytes of `,"viterbiTribit":`.
pub fn push_s_viterbi_tribit(out: &mut Vec<u8>)
    ensures
        final(out)@ == old(out)@ + spec_s_viterbi_tribit(),
{
    out.push(44);
    out.push(34);
    out.push(118);
    out.push(105);
    out.push(116);
    out.push(101);
    out.push(114);
    out.push(98);
    out.push(105);
    out.push(84);
    out.push(114);
    out.push(105);
    out.push(98);
    out.push(105);
    out.push(116);
    out.push(34);
    out.push(58);
    proof {
        assert(final(out)@ =~= old(out)@ + spec_s_viterbi_tribit());
    }
}

/// The bytes of `{"totalWords":`.
pub open spec fn spec_s_total_words() -> Seq<u8> {
    seq![123u8, 34u8, 116u8, 111u8, 116u8, 97u8, 108u8, 87u8, 111u8, 114u8, 100u8, 115u8, 34u8, 58u8]
}

/// Append the bytes of `{"totalWords":`.
pub fn push_s_total_words(out: &mut Vec<u8>)
    ensures
        final(out)@ == old(out)@ + spec_s_total_words(),
{
    out.push(123);
    out.push(34);
    out.push(116);
    out.push(111);
    out.push(116);
    out.push(97);
    out.push(108);
    out.push(87);
    out.push(111);
    out.push(114);
    out.push(100);
    out.push(115);
    out.push(34);
    out.push(58);
    proof {
        assert(final(out)@ =~= old(out)@ + spec_s_total_words());
    }
}

/// The bytes of `,"errWords":`.
pub open spec fn spec_s_err_words() -> Seq<u8> {
    seq![44u8, 34u8, 101u8, 114u8, 114u8, 87u8, 111u8, 114u8, 100u8, 115u8, 34u8, 58u8]
}

/// Append the bytes of `,"errWords":`.
pub fn push_s_err_words(out: &mut Vec<u8>)
    ensures
        final(out)@ == old(out)@ + spec_s_err_words(),
{
    out.push(44);
    out.push(34);
    out.push(101);
    out.push(114);
    out.push(114);
    out.push(87);
    out.push(111);
    out.push(114);
    out.push(100);
    out.push(115);
    out.push(34);
    out.push(58);
    proof {
        assert(final(out)@ =~= old(out)@ + spec_s_err_words());
    }
}

/// The bytes of `,"totalSymbols":`.
pub open spec fn spec_s_total_symbols() -> Seq<u8> {
    seq![44u8, 34u8, 116u8, 111u8, 116u8, 97u8, 108u8, 83u8, 121u8, 109u8, 98u8, 111u8, 108u8, 115u8, 34u8, 58u8]
}

/// Append the bytes of `,"totalSymbols":`.
pub fn push_s_total_symbols(out: &mut Vec<u8>)
    ensures
        final(out)@ == old(out)@ + spec_s_total_symbols(),
{
    out.push(44);
    out.push(34);
    out.push(116);
    out.push(111);
    out.push(116);
    out.push(97);
    out.push(108);
    out.push(83);
    out.push(121);
    out.push(109);
    out.push(98);
    out.push(111);
    out.push(108);
    out.push(115);
    out.push(34);
    out.push(58);
    proof {
        assert(final(out)@ =~= old(out)@ + spec_s_total_symbols());
    }
}

/// The bytes of `,"fixedSymbols":`.
pub open spec fn spec_s_fixed_symbols() -> Seq<u8> {
    seq![44u8, 34u8, 102u8, 105u8, 120u8, 101u8, 100u8, 83u8, 121u8, 109u8, 98u8, 111u8, 108u8, 115u8, 34u8, 58u8]
}

/// Append the bytes of `,"fixedSymbols":`.
pub fn push_s_fixed_symbols(out: &mut Vec<u8>)
    ensures
        final(out)@ == old(out)@ + spec_s_fixed_symbols(),
{
    out.push(44);
    out.push(34);
    out.push(102);
    out.push(105);
    out.push(120);
    out.push(101);
    out.push(100);
    out.push(83);
    out.push(121);
    out.push(109);
    out.push(98);
    out.push(111);
    out.push(108);
    out.push(115);
    out.push(34);
    out.push(58);
    proof {
        assert(final(out)@ =~= old(out)@ + spec_s_fixed_symbols());
    }
}

/// The bytes of `{"exclude":`.
pub open spec fn spec_f_exclude() -> Seq<u8> {
    seq![123u8, 34u8, 101u8, 120u8, 99u8, 108u8, 117u8, 100u8, 101u8, 34u8, 58u8]
}

/// Append the bytes of `{"exclude":`.
pub fn push_f_exclude(out: &mut Vec<u8>)
    ensures
        final(out)@ == old(out)@ + spec_f_exclude(),
{
    out.push(123);
    out.push(34);
    out.push(101);
    out.push(120);
    out.push(99);
    out.push(108);
    out.push(117);
    out.push(100);
    out.push(101);
    out.push(34);
    out.push(58);
    proof {
        assert(final(out)@ =~= old(out)@ + spec_f_exclude());
    }
}

/// The bytes of `true`.
pub open spec fn spec_lit_true() -> Seq<u8> {
    seq![116u8, 114u8, 117u8, 101u8]
}

/// Append the bytes of `true`.
pub fn push_lit_true(out: &mut Vec<u8>)
    ensures
        final(out)@ == old(out)@ + spec_lit_true(),
{
    out.push(116);
    out.push(114);
    out.push(117);
    out.push(101);
    proof {
        assert(final(out)@ =~= old(out)@ + spec_lit_true());
    }
}

/// The bytes of `false`.
pub open spec fn spec_lit_false() -> Seq<u8> {
    seq![102u8, 97u8, 108u8, 115u8, 101u8]
}

/// Append the bytes of `false`.
pub fn push_lit_false(out: &mut Vec<u8>)
    ensures
        final(out)@ == old(out)@ + spec_lit_false(),
{
    out.push(102);
    out.push(97);
    out.push(108);
    out.push(115);
    out.push(101);
    proof {
        assert(final(out)@ =~= old(out)@ + spec_lit_false());
    }
}

/// The bytes of `,"filt":[`.
pub open spec fn spec_f_filt() -> Seq<u8> {
    seq![44u8, 34u8, 102u8, 105u8, 108u8, 116u8, 34u8, 58u8, 91u8]
}

/// Append the bytes of `,"filt":[`.
pub fn push_f_filt(out: &mut Vec<u8>)
    ensures
        final(out)@ == old(out)@ + spec_f_filt(),
{
    out.push(44);
    out.push(34);
    out.push(102);
    out.push(105);
    out.push(108);
    out.push(116);
    out.push(34);
    out.push(58);
    out.push(91);
    proof {
        assert(final(out)@ =~= old(out)@ + spec_f_filt());
    }
}

/// The bytes of `]}`.
pub open spec fn spec_close_bracket_brace() -> Seq<u8> {
    seq![93u8, 125u8]
}

/// Append the bytes of `]}`.
pub fn push_close_bracket_brace(out: &mut Vec<u8>)
    ensures
        final(out)@ == old(out)@ + spec_close_bracket_brace(),
{
    out.push(93);
    out.push(125);
    proof {
        assert(final(out)@ =~= old(out)@ + spec_close_bracket_brace());
    }
}

/// The bytes of `,`.
pub open spec fn spec_comma() -> Seq<u8> {
    seq![44u8]
}

/// Append the bytes of `,`.
pub fn push_comma(out: &mut Vec<u8>)
    ensures
        final(out)@ == old(out)@ + spec_comma(),
{
    out.push(44);
    proof {
        assert(final(out)@ =~= old(out)@ + spec_comma());
    }
}

/// The bytes of `{"ctlfreq":`.
pub open spec fn spec_k_ctlfreq() -> Seq<u8> {
    seq![123u8, 34u8, 99u8, 116u8, 108u8, 102u8, 114u8, 101u8, 113u8, 34u8, 58u8]
}

/// Append the bytes of `{"ctlfreq":`.
pub fn push_k_ctlfreq(out: &mut Vec<u8>)
    ensures
        final(out)@ == old(out)@ + spec_k_ctlfreq(),
{
    out.push(123);
    out.push(34);
    out.push(99);
    out.push(116);
    out.push(108);
    out.push(102);
    out.push(114);
    out.push(101);
    out.push(113);
    out.push(34);
    out.push(58);
    proof {
        assert(final(out)@ =~= old(out)@ + spec_k_ctlfreq());
    }
}

/// The bytes of `"`.
pub open spec fn spec_quote() -> Seq<u8> {
    seq![34u8]
}

/// Append the bytes of `"`.
pub fn push_quote(out: &mut Vec<u8>)
    ensures
        final(out)@ == old(out)@ + spec_quote(),
{
    out.push(34);
    proof {
        assert(final(out)@ =~= old(out)@ + spec_quote());
    }
}

/// The bytes of `":"`.
pub open spec fn spec_quote_colon_quote() -> Seq<u8> {
    seq![34u8, 58u8, 34u8]
}

/// Append the bytes of `":"`.
pub fn push_quote_colon_quote(out: &mut Vec<u8>)
    ensures
        final(out)@ == old(out)@ + spec_quote_colon_quote(),
{
    out.push(34);
    out.push(58);
    out.push(34);
    proof {
        assert(final(out)@ =~= old(out)@ + spec_quote_colon_quote());
    }
}

/// The bytes of `{`.
pub open spec fn spec_open_brace() -> Seq<u8> {
    seq![123u8]
}

/// Append the bytes of `{`.
pub fn push_open_brace(out: &mut Vec<u8>)
    ensures
        final(out)@ == old(out)@ + spec_open_brace(),
{
    out.push(123);
    proof {
        assert(final(out)@ =~= old(out)@ + spec_open_brace());
    }
}

/// The bytes of `}`.
pub open spec fn spec_close_brace() -> Seq<u8> {
    seq![125u8]
}

/// Append the bytes of `}`.
pub fn push_close_brace(out: &mut Vec<u8>)
    ensures
        final(out)@ == old(out)@ + spec_close_brace(),
{
    out.push(125);
    proof {
        assert(final(out)@ =~= old(out)@ + spec_close_brace());
    }
}

/// The bytes of `Des`.
pub open spec fn spec_alg_des() -> Seq<u8> {
    seq![68u8, 101u8, 115u8]
}

/// Append the bytes of `Des`.
pub fn push_alg_des(out: &mut Vec<u8>)
    ensures
        final(out)@ == old(out)@ + spec_alg_des(),
{
    out.push(68);
    out.push(101);
    out.push(115);
    proof {
        assert(final(out)@ =~= old(out)@ + spec_alg_des());
    }
}

/// The bytes of `Aes`.
pub open spec fn spec_alg_aes() -> Seq<u8> {
    seq![65u8, 101u8, 115u8]
}

/// Append the bytes of `Aes`.
pub fn push_alg_aes(out: &mut Vec<u8>)
    ensures
        final(out)@ == old(out)@ + spec_alg_aes(),
{
    out.push(65);
    out.push(101);
    out.push(115);
    proof {
        assert(final(out)@ =~= old(out)@ + spec_alg_aes());
    }
}

/// The bytes of `Unencrypted`.
pub open spec fn spec_alg_unencrypted() -> Seq<u8> {
    seq![85u8, 110u8, 101u8, 110u8, 99u8, 114u8, 121u8, 112u8, 116u8, 101u8, 100u8]
}

/// Append the bytes of `Unencrypted`.
pub fn push_alg_unencrypted(out: &mut Vec<u8>)
    ensures
        final(out)@ == old(out)@ + spec_alg_unencrypted(),
{
    out.push(85);
    out.push(110);
    out.push(101);
    out.push(110);
    out.push(99);
    out.push(114);
    out.push(121);
    out.push(112);
    out.push(116);
    out.push(101);
    out.push(100);
    proof {
        assert(final(out)@ =~= old(out)@ + spec_alg_unencrypted());
    }
}

/// The bytes of `Other`.
pub open spec fn spec_alg_other() -> Seq<u8> {
    seq![79u8, 116u8, 104u8, 101u8, 114u8]
}

/// Append the bytes of `Other`.
pub fn push_alg_other(out: &mut Vec<u8>)
    ensures
        final(out)@ == old(out)@ + spec_alg_other(),
{
    out.push(79);
    out.push(116);
    out.push(104);
    out.push(101);
    out.push(114);
    proof {
        assert(final(out)@ =~= old(out)@ + spec_alg_other());
    }
}

/// The bytes of `ctlfreq`.
pub open spec fn spec_name_ctlfreq() -> Seq<u8> {
    seq![99u8, 116u8, 108u8, 102u8, 114u8, 101u8, 113u8]
}

/// Append the bytes of `ctlfreq`.
pub fn push_name_ctlfreq(out: &mut Vec<u8>)
    ensures
        final(out)@ == old(out)@ + spec_name_ctlfreq(),
{
    out.push(99);
    out.push(116);
    out.push(108);
    out.push(102);
    out.push(114);
    out.push(101);
    out.push(113);
    proof {
        assert(final(out)@ =~= old(out)@ + spec_name_ctlfreq());
    }
}

/// The bytes of `exclude`.
pub open spec fn spec_name_exclude() -> Seq<u8> {
    seq![101u8, 120u8, 99u8, 108u8, 117u8, 100u8, 101u8]
}

/// Append the bytes of `exclude`.
pub fn push_name_exclude(out: &mut Vec<u8>)
    ensures
        final(out)@ == old(out)@ + spec_name_exclude(),
{
    out.push(101);
    out.push(120);
    out.push(99);
    out.push(108);
    out.push(117);
    out.push(100);
    out.push(101);
    proof {
        assert(final(out)@ =~= old(out)@ + spec_name_exclude());
    }
}

/// The bytes of `filt`.
pub open spec fn spec_name_filt() -> Seq<u8> {
    seq![102u8, 105u8, 108u8, 116u8]
}

/// Append the bytes of `filt`.
pub fn push_name_filt(out: &mut Vec<u8>)
    ensures
        final(out)@ == old(out)@ + spec_name_filt(),
{
    out.push(102);
    out.push(105);
    out.push(108);
    out.push(116);
    proof {
        assert(final(out)@ =~= old(out)@ + spec_name_filt());
    }
}

/// The bytes of `{"encrypted":`.
pub open spec fn spec_k_encrypted_field() -> Seq<u8> {
    seq![123u8, 34u8, 101u8, 110u8, 99u8, 114u8, 121u8, 112u8, 116u8, 101u8, 100u8, 34u8, 58u8]
}

/// Append the bytes of `{"encrypted":`.
pub fn push_k_encrypted_field(out: &mut Vec<u8>)
    ensures
        final(out)@ == old(out)@ + spec_k_encrypted_field(),
{
    out.push(123);
    out.push(34);
    out.push(101);
    out.push(110);
    out.push(99);
    out.push(114);
    out.push(121);
    out.push(112);
    out.push(116);
    out.push(101);
    out.push(100);
    out.push(34);
    out.push(58);
    proof {
        assert(final(out)@ =~= old(out)@ + spec_k_encrypted_field());
    }
}

/// The bytes of `.`.
pub open spec fn spec_dot() -> Seq<u8> {
    seq![46u8]
}

/// Append the bytes of `.`.
pub fn push_dot(out: &mut Vec<u8>)
    ensures
        final(out)@ == old(out)@ + spec_dot(),
{
    out.push(46);
    proof {
        assert(final(out)@ =~= old(out)@ + spec_dot());
    }
}

} // verus!
